//! The presentation adapter: maps the listing and the scroll offset to
//! a virtually infinite repetition of rows, so the viewport never runs
//! out of rows before the animation converges.

use vstd::prelude::*;
use crate::engine::MAX_LISTING_LEN;
use crate::records::ServerItem;
use vstd::arithmetic::div_mod::{
    lemma_fundamental_div_mod, lemma_mod_division_less_than_divisor,
};
use vstd::arithmetic::mul::lemma_mul_is_commutative;

verus! {

/// How many times the listing must be repeated to cover the longest
/// scroll: enough full copies for one hundred and ten virtual rows,
/// plus two for the viewport margins. The repetitions always cover at
/// least those hundred and ten rows.
pub fn repetitions_needed(len: usize) -> (r: usize)
    requires
        0 < len <= MAX_LISTING_LEN,
    ensures
        r == (110 + len - 1) / (len as int) + 2,
        (r - 2) * len >= 110,
{
    let c: usize = (110 + len - 1) / len;
    proof {
        let lv = len as int;
        lemma_fundamental_div_mod(109 + lv, lv);
        lemma_mod_division_less_than_divisor(109 + lv, lv);
        lemma_mul_is_commutative(lv, c as int);
    }
    c + 2
}

/// The record shown at a virtual row: the listing entry the row wraps
/// around to.
pub fn record_at<'a>(listing: &'a Vec<ServerItem>, virtual_row: usize) -> (s: &'a ServerItem)
    requires
        listing.len() > 0,
    ensures
        *s == listing@[virtual_row as int % listing@.len() as int],
{
    proof {
        lemma_mod_division_less_than_divisor(virtual_row as int, listing@.len() as int);
    }
    &listing[virtual_row % listing.len()]
}

} // verus!
