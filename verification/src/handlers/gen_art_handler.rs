//! The generative art command, which so far only announces itself.
use crate::text::{str_eq, views};
use vstd::prelude::*;

verus! {

/// Whether the space-separated words of a chat message are the `!art`
/// command (which the program announces and does nothing more with).
pub fn handle_gen_art_requests(splitmsg: &Vec<String>) -> (r: bool)
    requires
        splitmsg@.len() > 0,
    ensures
        r == (views(splitmsg@)[0] == "!art"@),
{
    assert(views(splitmsg@)[0] == splitmsg@[0]@);
    str_eq(splitmsg[0].as_str(), "!art")
}

} // verus!
