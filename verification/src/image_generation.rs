//! Names under which generated images are archived.
use crate::text::{concat3, decimal, decimal_spec};
use vstd::prelude::*;

verus! {

/// The image generators a request can go to.
#[derive(PartialEq, Eq, Structural, Clone, Copy, Debug)]
pub enum AiImageRequests {
    DalleRequest,
    StableDiffusionRequest,
}

/// The shape of a UTC time written with `%Y%m%d%H%M%S`: the year, zero
/// padded to at least four digits (with a sign before years outside
/// 0..=9999), then month, day, hour, minute and second in two digits each.
/// So: at least 14 characters, all ASCII digits but the first, which may
/// also be a sign.
pub open spec fn is_utc_stamp(t: Seq<char>) -> bool {
    &&& t.len() >= 14
    &&& forall|i: int| 1 <= i < t.len() ==> '0' <= #[trigger] t[i] <= '9'
    &&& ('0' <= t[0] <= '9' || t[0] == '+' || t[0] == '-')
}

/// chrono's `Utc::now()` formatted with `%Y%m%d%H%M%S`: the current UTC time
/// as text. Which time it is depends on the clock; what is claimed is the
/// shape chrono's `%Y`, `%m`, `%d`, `%H`, `%M` and `%S` write.
#[verifier::external_body]
pub(crate) fn utc_timestamp() -> (r: String)
    ensures
        is_utc_stamp(r@),
{
    chrono::Utc::now().format("%Y%m%d%H%M%S").to_string()
}

/// The identifier of the `index`-th image that `username` asked for at the
/// time `timestamp`.
pub open spec fn archive_identifier_spec(timestamp: Seq<char>, index: nat, username: Seq<char>) -> Seq<
    char,
> {
    timestamp + "_"@ + decimal_spec(index) + "_"@ + username
}

/// The archive file of the image with identifier `identifier`.
pub open spec fn archive_filename_spec(identifier: Seq<char>) -> Seq<char> {
    "./archive/"@ + identifier + ".png"@
}

/// The identifier and the archive file name of the `index`-th image that
/// `username` asked for at the time `timestamp`.
pub fn archive_names(timestamp: &str, index: usize, username: &str) -> (r: (String, String))
    ensures
        r.0@ == archive_identifier_spec(timestamp@, index as nat, username@),
        r.1@ == archive_filename_spec(r.0@),
{
    let n = decimal(index as u64);
    let head = concat3(timestamp, "_", n.as_str());
    let identifier = concat3(head.as_str(), "_", username);
    let filename = concat3("./archive/", identifier.as_str(), ".png");
    (identifier, filename)
}

/// The identifier and archive file name of the `index`-th image that
/// `username` asks for now: the identifier starts with the current UTC time.
pub fn unique_archive_names(index: usize, username: &str) -> (r: (String, String))
    ensures
        exists|timestamp: Seq<char>|
            is_utc_stamp(timestamp) && r.0@ == #[trigger] archive_identifier_spec(
                timestamp,
                index as nat,
                username@,
            ),
        r.1@ == archive_filename_spec(r.0@),
{
    let timestamp = utc_timestamp();
    let r = archive_names(timestamp.as_str(), index, username);
    assert(r.0@ == archive_identifier_spec(timestamp@, index as nat, username@));
    r
}

} // verus!
