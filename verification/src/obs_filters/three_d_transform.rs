//! The 3D transform filter's camera modes.
use crate::text::concat;
use vstd::prelude::*;

verus! {

/// The camera of a 3D transform filter.
#[derive(PartialEq, Eq, Structural, Clone, Copy, Debug)]
pub enum CameraMode {
    Perspective,
    Orthographic,
    CornerPin,
}

impl Default for CameraMode {
    fn default() -> (r: Self)
        ensures
            r == CameraMode::Perspective,
    {
        CameraMode::Perspective
    }
}

impl CameraMode {
    /// The number the filter stores for the camera mode.
    pub open spec fn code_spec(self) -> u8 {
        match self {
            CameraMode::Perspective => 0,
            CameraMode::Orthographic => 1,
            CameraMode::CornerPin => 2,
        }
    }

    /// The number the filter stores for the camera mode.
    pub fn code(&self) -> (c: u8)
        ensures
            c == self.code_spec(),
    {
        match self {
            CameraMode::Perspective => 0,
            CameraMode::Orthographic => 1,
            CameraMode::CornerPin => 2,
        }
    }

    /// The camera's name in filter names.
    pub open spec fn name_spec(self) -> Seq<char> {
        match self {
            CameraMode::Perspective => "Perspective"@,
            CameraMode::Orthographic => "Orthographic"@,
            CameraMode::CornerPin => "CornerPin"@,
        }
    }

    /// The 3D transform filter of this camera.
    pub open spec fn filter_name_spec(self) -> Seq<char> {
        "3D-Transform-"@ + self.name_spec()
    }

    /// The 3D transform filter of this camera.
    pub fn filter_name(&self) -> (s: String)
        ensures
            s@ == self.filter_name_spec(),
    {
        let name = match self {
            CameraMode::Perspective => "Perspective",
            CameraMode::Orthographic => "Orthographic",
            CameraMode::CornerPin => "CornerPin",
        };
        concat("3D-Transform-", name)
    }
}


/// The camera modes are told apart by the filter: each has its own stored
/// number (perspective 0, orthographic 1, corner pin 2) and its own 3D
/// transform filter.
pub proof fn camera_modes_are_distinct(a: CameraMode, b: CameraMode)
    ensures
        CameraMode::Perspective.code_spec() == 0,
        CameraMode::Orthographic.code_spec() == 1,
        CameraMode::CornerPin.code_spec() == 2,
        a != b ==> a.code_spec() != b.code_spec(),
        a != b ==> a.filter_name_spec() != b.filter_name_spec(),
{
    reveal_strlit("Perspective");
    reveal_strlit("Orthographic");
    reveal_strlit("CornerPin");
    reveal_strlit("3D-Transform-");
    assert("Perspective"@.len() == 11);
    assert("Orthographic"@.len() == 12);
    assert("CornerPin"@.len() == 9);
    assert("3D-Transform-"@.len() == 13);
    assert(a != b ==> a.filter_name_spec().len() != b.filter_name_spec().len()
        || a.filter_name_spec()[13] != b.filter_name_spec()[13]);
}

} // verus!
