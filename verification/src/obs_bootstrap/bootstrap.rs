//! Setting up a source's filters: the split 3D transform filters, one set
//! per camera.
use crate::obs_filters::three_d_transform::CameraMode;
use crate::text::concat;
use vstd::prelude::*;

verus! {

/// The filters a source gets for one camera: the 3D transform filter, the
/// move-value filter that animates it, and the one that resets it (which
/// targets the camera's `3D_` filter).
pub struct CameraFilters {
    pub camera_mode: CameraMode,
    pub transform_filter: String,
    pub move_filter: String,
    pub default_filter: String,
    pub default_target: String,
}

/// The filters of one camera, as plain text.
pub open spec fn camera_filters_spec(mode: CameraMode) -> (Seq<char>, Seq<char>, Seq<char>, Seq<char>) {
    (
        mode.filter_name_spec(),
        "Move_"@ + mode.filter_name_spec(),
        "Default_"@ + mode.filter_name_spec(),
        "3D_"@ + mode.name_spec(),
    )
}

/// The filters a source gets for the camera `mode`.
pub fn camera_filters(mode: CameraMode) -> (r: CameraFilters)
    ensures
        r.camera_mode == mode,
        (r.transform_filter@, r.move_filter@, r.default_filter@, r.default_target@)
            == camera_filters_spec(mode),
{
    let transform_filter = mode.filter_name();
    let move_filter = concat("Move_", transform_filter.as_str());
    let default_filter = concat("Default_", transform_filter.as_str());
    let name = match mode {
        CameraMode::Perspective => "Perspective",
        CameraMode::Orthographic => "Orthographic",
        CameraMode::CornerPin => "CornerPin",
    };
    let default_target = concat("3D_", name);
    CameraFilters { camera_mode: mode, transform_filter, move_filter, default_filter, default_target }
}

/// The cameras that a source's split 3D transform filters are made for, in
/// the order they are created.
pub open spec fn split_cameras() -> Seq<CameraMode> {
    seq![CameraMode::Orthographic, CameraMode::Perspective, CameraMode::CornerPin]
}

/// The filters that `create_split_3d_transform_filters` makes for a
/// source, one set per camera, in order. The camera mode each transform
/// filter stores is the camera's position in that order (so the
/// orthographic filter stores 0 and the perspective one 1).
pub fn create_split_3d_transform_filters() -> (r: Vec<(i32, CameraFilters)>)
    ensures
        r@.len() == 3,
        forall|i: int|
            0 <= i < 3 ==> (#[trigger] r@[i]).0 == i && r@[i].1.camera_mode == split_cameras()[i]
                && (r@[i].1.transform_filter@, r@[i].1.move_filter@, r@[i].1.default_filter@, r@[
                i
            ].1.default_target@) == camera_filters_spec(split_cameras()[i]),
{
    let mut r: Vec<(i32, CameraFilters)> = Vec::new();
    r.push((0, camera_filters(CameraMode::Orthographic)));
    r.push((1, camera_filters(CameraMode::Perspective)));
    r.push((2, camera_filters(CameraMode::CornerPin)));
    r
}

} // verus!
