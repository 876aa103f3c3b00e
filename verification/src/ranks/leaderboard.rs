//! The leaderboard command: which page, and which ranks it shows.

use vstd::prelude::*;

use crate::text::{int_decimal, lemma_parse_int_decimal, parse_i32, parse_i32_spec};

verus! {

/// How many members a leaderboard page shows.
pub const PAGE_SIZE: i32 = 10;

/// The page number that the argument gives, or 1 when there is none or it
/// is not a number.
pub open spec fn requested_page(arg: Option<Seq<char>>) -> int {
    match parse_i32_spec(
        match arg {
            Some(a) => a,
            None => "1"@,
        },
    ) {
        Some(p) => p as int,
        None => 1,
    }
}

/// The zero-based page index for the argument: the requested page minus one,
/// and page 0 for anything below.
pub open spec fn page_index_spec(arg: Option<Seq<char>>) -> int {
    if requested_page(arg) - 1 <= 0 {
        0
    } else {
        requested_page(arg) - 1
    }
}

/// The zero-based leaderboard page that the command's argument asks for.
/// The page number `i32::MIN` cannot be stepped down from.
pub fn page_index(arg: Option<&str>) -> (p: i32)
    requires
        requested_page(
            match arg {
                Some(a) => Some(a@),
                None => None,
            },
        ) != i32::MIN,
    ensures
        p == page_index_spec(
            match arg {
                Some(a) => Some(a@),
                None => None,
            },
        ),
        p >= 0,
{
    let text = match arg {
        Some(a) => a,
        None => "1",
    };
    let requested = match parse_i32(text) {
        Some(p) => p,
        None => 1,
    };
    let page = requested - 1;
    if page <= 0 {
        0
    } else {
        page
    }
}

/// How many ranks come before the first one on page `page`.
pub fn first_rank_offset(page: i32) -> (n: i32)
    requires
        0 <= page,
        PAGE_SIZE * page <= i32::MAX,
    ensures
        n == PAGE_SIZE * page,
{
    PAGE_SIZE * page
}

/// The rank of the `index`-th entry (from 0) of a page whose ranks follow
/// `starting_rank`: `index + 1 + starting_rank`, the index taken as an `i32`.
pub fn entry_rank(index: usize, starting_rank: i32) -> (r: i32)
    requires
        (index as i32) + 1 <= i32::MAX,
        i32::MIN <= (index as i32) + 1 + starting_rank <= i32::MAX,
    ensures
        r == (index as i32) + 1 + starting_rank,
{
    #[verifier::truncate]
    let i = index as i32;
    i + 1 + starting_rank
}

/// The entries of a page have consecutive ranks.
pub proof fn lemma_entry_ranks_consecutive(index: usize, starting_rank: i32)
    requires
        index < i32::MAX,
    ensures
        (((index + 1) as usize) as i32) + 1 + starting_rank == ((index as i32) + 1 + starting_rank) + 1,
{
}

/// Asking for page `n`, written in decimal, gives page index `n - 1` (and 0
/// for `n` below 2).
pub proof fn lemma_page_of_number(n: i32)
    requires
        n != i32::MIN,
    ensures
        page_index_spec(Some(int_decimal(n as int))) == (if n <= 1 {
            0
        } else {
            n - 1
        }),
{
    lemma_parse_int_decimal(n);
}

/// Without an argument the first page is shown.
pub proof fn lemma_no_argument_first_page()
    ensures
        page_index_spec(None) == 0,
{
    reveal_strlit("1");
    assert("1"@.len() == 1);
    assert("1"@[0] == '1');
    assert(crate::text::digits_value("1"@) == 1) by {
        assert("1"@.drop_last() =~= Seq::<char>::empty());
        assert(crate::text::digits_value("1"@.drop_last()) == 0);
        assert(crate::text::digit_value('1') == 1);
    }
    assert(crate::text::all_digits("1"@));
}

} // verus!
