//! Fragments of HTML that pages load on demand.
use vstd::prelude::*;

use crate::str_equal;

verus! {

/// Whether the cup form should offer a cap on players: where its checkbox reads `on`.
pub fn player_cap_enabled(has_player_cap: Option<&str>) -> (r: bool)
    ensures
        r == (has_player_cap matches Some(cap) && cap@ == "on"@),
{
    match has_player_cap {
        Some(cap) => str_equal(cap, "on"),
        None => false,
    }
}

} // verus!
