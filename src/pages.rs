//! Page counts derived from the catalog's pagination metadata.

use vstd::prelude::*;
use crate::models::PageMeta;

verus! {

/// The number of pages holding `total` items at `per_page` items a page
/// (a page size of 0 counts as 1): `ceil(total / per_page)`, at least 1, at
/// most `u32::MAX`.
pub open spec fn page_count_of(total: nat, per_page: nat) -> nat {
    let size = if per_page == 0 { 1 } else { per_page };
    let pages = if total % size == 0 { total / size } else { total / size + 1 };
    if pages == 0 {
        1
    } else if pages > u32::MAX {
        u32::MAX as nat
    } else {
        pages
    }
}

/// The number of pages holding `total` items at `per_page` items a page.
pub fn page_count(total: u64, per_page: u64) -> (r: u32)
    ensures
        r as nat == page_count_of(total as nat, per_page as nat),
        r >= 1,
{
    let size: u64 = if per_page == 0 { 1 } else { per_page };
    proof {
        if total % size != 0 {
            assert(size >= 2) by {
                if size == 1 {
                    assert(total % 1 == 0) by (nonlinear_arith);
                }
            }
            assert(total / size <= total / 2) by (nonlinear_arith)
                requires size >= 2;
        }
    }
    let pages: u64 = if total % size == 0 { total / size } else { total / size + 1 };
    if pages == 0 {
        1
    } else if pages > u32::MAX as u64 {
        u32::MAX
    } else {
        pages as u32
    }
}

/// The page count given by pagination metadata: its `total` (0 when absent)
/// over its `per_page` (`default_per_page` when absent); 1 without metadata.
pub open spec fn meta_page_count(meta: Option<PageMeta>, default_per_page: nat) -> nat {
    match meta {
        None => 1,
        Some(m) => page_count_of(
            match m.total {
                Some(t) => t as nat,
                None => 0,
            },
            match m.per_page {
                Some(p) => p as nat,
                None => default_per_page,
            },
        ),
    }
}

/// The page count given by pagination metadata (see `meta_page_count`).
pub fn calculate_total_pages(meta: Option<&PageMeta>, default_per_page: u64) -> (r: u32)
    ensures
        r as nat == meta_page_count(match meta {
            Some(m) => Some(*m),
            None => None,
        }, default_per_page as nat),
        r >= 1,
{
    match meta {
        None => 1,
        Some(m) => {
            let total = match m.total {
                Some(t) => t,
                None => 0,
            };
            let per_page = match m.per_page {
                Some(p) => p,
                None => default_per_page,
            };
            page_count(total, per_page)
        },
    }
}

} // verus!
