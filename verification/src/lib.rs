//! Analysis of recorded time intervals as positions within repeating cycles.
//!
//! A timestamp is mapped onto a recurring period (hour, day, week) as a
//! normalized phase fraction; several such phase measurements can then be
//! combined geometrically by an unverified polar-vector layer built on top.

use vstd::prelude::*;

pub mod calendar;
pub mod time_series;

verus! {

/// Returns a string of `depth` tab characters, used to indent nested output.
pub fn indent(depth: usize) -> (r: String)
    ensures
        r@ == Seq::new(depth as nat, |i: int| '\t'),
{
    let mut s = String::new();
    let mut i: usize = 0;
    while i < depth
        invariant
            i <= depth,
            s@ == Seq::new(i as nat, |j: int| '\t'),
        decreases depth - i,
    {
        proof {
            reveal_strlit("\t");
        }
        s = s.concat("\t");
        i = i + 1;
        proof {
            assert(s@ =~= Seq::new(i as nat, |j: int| '\t'));
        }
    }
    s
}

} // verus!
