//! The texts of the rank card.

use vstd::prelude::*;

use crate::text::{chars_to_string, int_decimal, push_int_decimal};

verus! {

/// How a number of experience points is written on a card.
pub enum CountText {
    /// Below 1000: the number itself.
    Exact(String),
    /// From 1000 on: `value` in thousands, with `decimals` digits after the
    /// point and a `K` (the rounding is that of floating point).
    Thousands { value: i32, decimals: usize },
}

/// How `num` is written on a card: the number below 1000, else thousands
/// with two decimals below 10 000, one below 100 000, none from there on.
pub fn format_i32(num: i32) -> (t: CountText)
    ensures
        num < 1000 ==> (t matches CountText::Exact(s) && s@ == int_decimal(num as int)),
        1000 <= num < 10_000 ==> t == (CountText::Thousands { value: num, decimals: 2 }),
        10_000 <= num < 100_000 ==> t == (CountText::Thousands { value: num, decimals: 1 }),
        100_000 <= num ==> t == (CountText::Thousands { value: num, decimals: 0 }),
{
    if num < 1000 {
        let mut v: Vec<char> = Vec::new();
        push_int_decimal(num as i64, &mut v);
        assert(v@ =~= int_decimal(num as int));
        CountText::Exact(chars_to_string(&v))
    } else if num < 10_000 {
        CountText::Thousands { value: num, decimals: 2 }
    } else if num < 100_000 {
        CountText::Thousands { value: num, decimals: 1 }
    } else {
        CountText::Thousands { value: num, decimals: 0 }
    }
}

/// `#` and the rank, as the cards show it.
pub fn rank_label(rank: i32) -> (s: String)
    ensures
        s@ == seq!['#'] + int_decimal(rank as int),
{
    let mut v: Vec<char> = Vec::new();
    v.push('#');
    push_int_decimal(rank as i64, &mut v);
    chars_to_string(&v)
}

} // verus!
