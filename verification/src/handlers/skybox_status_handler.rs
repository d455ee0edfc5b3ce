//! Skybox status: a skybox request is done once its status carries the
//! file url; its image is then archived and shown.
use crate::image_generation::{is_utc_stamp, utc_timestamp};
use crate::text::{concat3, signed_decimal, signed_decimal_spec};
use vstd::prelude::*;

verus! {

/// Whether a skybox is ready: its status has a file url.
pub fn skybox_ready(file_url: &str) -> (r: bool)
    ensures
        r == (file_url@.len() > 0),
{
    !file_url.is_empty()
}

/// The archive file of the skybox `blockade_id` finished at `timestamp`.
pub open spec fn skybox_archive_file_spec(timestamp: Seq<char>, blockade_id: i64) -> Seq<char> {
    "./archive/skybox/"@ + timestamp + "_"@ + signed_decimal_spec(blockade_id as int) + ".png"@
}

/// The archive file of the skybox `blockade_id` finished at `timestamp`.
pub fn skybox_archive_file(timestamp: &str, blockade_id: i64) -> (r: String)
    ensures
        r@ == skybox_archive_file_spec(timestamp@, blockade_id),
{
    let id = signed_decimal(blockade_id);
    let head = concat3("./archive/skybox/", timestamp, "_");
    concat3(head.as_str(), id.as_str(), ".png")
}

/// The archive file of the skybox `blockade_id` finished now: its name
/// starts with the current UTC time.
pub fn save_image_path(blockade_id: i64) -> (r: String)
    ensures
        exists|timestamp: Seq<char>|
            is_utc_stamp(timestamp) && r@ == #[trigger] skybox_archive_file_spec(timestamp, blockade_id),
{
    let timestamp = utc_timestamp();
    let r = skybox_archive_file(timestamp.as_str(), blockade_id);
    assert(r@ == skybox_archive_file_spec(timestamp@, blockade_id));
    r
}

} // verus!
