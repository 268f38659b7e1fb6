//! Pages of a search: where a page starts, and whether another follows.

use vstd::arithmetic::div_mod::{lemma_mul_mod_noop_left, lemma_small_mod};
use vstd::prelude::*;

verus! {

/// Number of entries that the catalog returns for one page of a search.
pub const PAGE_SIZE: u64 = 20;

/// The page that follows `page`, where entries are left after it: there are
/// some exactly when `page` pages of `page_size` entries do not reach `total`.
/// Past the largest number that a `u64` holds there is no page to name, so
/// that number stays.
pub open spec fn next_page_of(page: u64, page_size: u64, total: u64) -> Option<u64> {
    if page * page_size < total {
        Some(if page < u64::MAX {
            (page + 1) as u64
        } else {
            page
        })
    } else {
        None
    }
}

/// Zero-based position of the first entry of `page`, pages being counted from
/// one. Page zero starts where page one does.
pub open spec fn page_offset(page: int, page_size: int) -> int {
    if page >= 1 {
        (page - 1) * page_size
    } else {
        0
    }
}

/// How many entries a search found, and the page to ask for next, if any.
#[derive(Debug, Clone, Copy, PartialEq, Eq, Structural)]
pub struct SearchDetails {
    pub total_items: u64,
    pub next_page: Option<u64>,
}

/// A page of results with the summary of the search that gave them.
#[derive(Debug, Clone)]
pub struct SearchResults<T> {
    pub items: Vec<T>,
    pub details: SearchDetails,
}

/// The page to ask for after `page`, or none if `page` was the last.
pub fn compute_next_page(page: u64, page_size: u64, total: u64) -> (next: Option<u64>)
    ensures
        next == next_page_of(page, page_size, total),
        next is Some <==> page * page_size < total,
        next is Some && page_size > 0 ==> next == Some((page + 1) as u64),
{
    assert(page * page_size <= 0xFFFF_FFFF_FFFF_FFFF * 0xFFFF_FFFF_FFFF_FFFF) by (nonlinear_arith)
        requires
            0 <= page <= 0xFFFF_FFFF_FFFF_FFFF,
            0 <= page_size <= 0xFFFF_FFFF_FFFF_FFFF,
    ;
    proof {
        lemma_next_page_iff_entries_left(page, page_size, total);
    }
    let reached: u128 = (page as u128) * (page_size as u128);
    if reached < total as u128 {
        if page < u64::MAX {
            Some(page + 1)
        } else {
            Some(page)
        }
    } else {
        None
    }
}

impl SearchDetails {
    /// The summary of a search that found `total` entries and was asked for
    /// `page`, with pages of [`PAGE_SIZE`] entries.
    pub fn for_page(page: u64, total: u64) -> (details: SearchDetails)
        ensures
            details == (SearchDetails {
                total_items: total,
                next_page: next_page_of(page, PAGE_SIZE, total),
            }),
            details.next_page is Some <==> page * PAGE_SIZE < total,
            details.next_page is Some ==> details.next_page->0 == page + 1,
    {
        SearchDetails { total_items: total, next_page: compute_next_page(page, PAGE_SIZE, total) }
    }
}

/// What the catalog's HTML search takes as `start`: the offset of `page`, cut
/// to 32 bits.
pub fn search_start(page: u64) -> (start: u32)
    ensures
        start == page_offset(page as int, PAGE_SIZE as int) % 0x1_0000_0000,
{
    let before: u64 = if page >= 1 {
        page - 1
    } else {
        0
    };
    let low: u64 = before % 0x1_0000_0000;
    proof {
        lemma_mul_mod_noop_left(before as int, PAGE_SIZE as int, 0x1_0000_0000);
    }
    ((low * PAGE_SIZE) % 0x1_0000_0000) as u32
}

/// What the catalog's API search takes as `start`: the offset of `page`, cut
/// to 64 bits.
pub fn api_start(page: u64) -> (start: u64)
    ensures
        start == page_offset(page as int, PAGE_SIZE as int) % 0x1_0000_0000_0000_0000,
{
    let before: u64 = if page >= 1 {
        page - 1
    } else {
        0
    };
    let size: u128 = PAGE_SIZE as u128;
    assert(size == 20);
    let wide: u128 = (before as u128) * size;
    (wide % 0x1_0000_0000_0000_0000) as u64
}

/// Every page whose offset fits is asked for at exactly that offset.
pub proof fn lemma_start_is_offset(page: u64)
    ensures
        page_offset(page as int, PAGE_SIZE as int) < 0x1_0000_0000 ==> page_offset(
            page as int,
            PAGE_SIZE as int,
        ) % 0x1_0000_0000 == page_offset(page as int, PAGE_SIZE as int),
        page_offset(page as int, PAGE_SIZE as int) < 0x1_0000_0000_0000_0000 ==> page_offset(
            page as int,
            PAGE_SIZE as int,
        ) % 0x1_0000_0000_0000_0000 == page_offset(page as int, PAGE_SIZE as int),
{
    let offset = page_offset(page as int, PAGE_SIZE as int);
    assert(offset >= 0);
    if offset < 0x1_0000_0000 {
        lemma_small_mod(offset as nat, 0x1_0000_0000);
    }
    if offset < 0x1_0000_0000_0000_0000 {
        lemma_small_mod(offset as nat, 0x1_0000_0000_0000_0000);
    }
}

/// A next page is named exactly when the pages asked for so far, this one
/// included, do not reach the total; and with pages that hold at least one
/// entry, the page that is named is the one after this.
pub proof fn lemma_next_page_iff_entries_left(page: u64, page_size: u64, total: u64)
    ensures
        next_page_of(page, page_size, total) is Some <==> page * page_size < total,
        page_size > 0 && next_page_of(page, page_size, total) is Some ==> next_page_of(
            page,
            page_size,
            total,
        ) == Some((page + 1) as u64) && page < u64::MAX,
{
    if page_size > 0 && page * page_size < total {
        assert(page <= page * page_size) by (nonlinear_arith)
            requires
                page_size >= 1,
                page >= 0,
        ;
    }
}

} // verus!
