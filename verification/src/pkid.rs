//! Packet identifier allocation: 16-bit rolling counters that skip zero.
//!
//! Each direction and each packet kind that needs identifiers owns an
//! independent counter; all of them advance the same way.

use vstd::prelude::*;

verus! {

/// The identifier issued after `id`: the counter wraps at the top of the
/// 16-bit range and never lands on zero.
pub open spec fn next_pkid(id: u16) -> u16 {
    if id == 0xFFFF {
        1u16
    } else {
        (id + 1) as u16
    }
}

/// No identifier the counter issues is ever zero.
pub proof fn lemma_pkid_never_zero(id: u16)
    ensures
        next_pkid(id) != 0,
{
}

/// The identifier the counter at `id` issues next.
pub fn advance(id: u16) -> (r: u16)
    ensures
        r == next_pkid(id),
        r != 0,
{
    if id == 0xFFFF {
        1
    } else {
        id + 1
    }
}

} // verus!
