//! The order-book channel name.

use vstd::prelude::*;

use crate::numfmt::{dec_digits_signed, i64_to_dec};

verus! {

/// The name of the order-book channel for an instrument at a depth.
pub open spec fn book_channel(instrument_name: Seq<char>, depth: i32) -> Seq<char> {
    "book."@ + instrument_name + "."@ + dec_digits_signed(depth as int)
}

/// Builds the order-book channel name, for example `book.ETH_CRO.150`.
pub fn book(instrument_name: &str, depth: i32) -> (s: String)
    ensures
        s@ == book_channel(instrument_name@, depth),
{
    let mut s = "book.".to_owned();
    s.append(instrument_name);
    s.append(".");
    let digits = i64_to_dec(depth as i64);
    s.append(digits.as_str());
    proof {
        assert(s@ =~= book_channel(instrument_name@, depth));
    }
    s
}

} // verus!
