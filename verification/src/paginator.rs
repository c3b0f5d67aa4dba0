//! Pagination parameters for list queries: a page number and a page size,
//! from which a row offset is derived.

use vstd::prelude::*;

verus! {

/// The offset of the first row of page `page`, with `page_size` rows to a
/// page. Page numbers below one are treated as page one.
pub open spec fn offset_spec(page: int, page_size: int) -> int {
    (if page < 1 {
        0
    } else {
        page - 1
    }) * page_size
}

/// Pagination parameters of a list request. A missing or unparsable
/// parameter falls back to the default page (one) or the default page
/// size (ten); that substitution happens at the request-parsing edge.
#[derive(Debug, Clone, Copy)]
pub struct Paginator {
    pub page_size: i32,
    pub page: i32,
}

impl Paginator {
    /// Page size used when the request names none.
    pub fn default_page_size() -> (r: i32)
        ensures
            r == 10,
    {
        10
    }

    /// Page number used when the request names none.
    pub fn default_page() -> (r: i32)
        ensures
            r == 1,
    {
        1
    }

    /// Row offset of this page: `(max(page, 1) - 1) * page_size`.
    pub fn offset(self) -> (r: i32)
        requires
            i32::MIN <= offset_spec(self.page as int, self.page_size as int) <= i32::MAX,
        ensures
            r as int == offset_spec(self.page as int, self.page_size as int),
    {
        let index: i32 = if self.page < 1 {
            0
        } else {
            self.page - 1
        };
        index * self.page_size
    }
}

/// Page zero and page one yield the same offset, namely zero: page numbers
/// below one are clamped to one before the offset is taken.
pub proof fn lemma_offset_page_floor(page_size: int)
    ensures
        offset_spec(0, page_size) == offset_spec(1, page_size),
        offset_spec(0, page_size) == 0,
{
}

/// Consecutive pages abut: from page one on, the next page's offset lies
/// exactly one page size further. Together with the listing laws, pages
/// of the same size carve the table into disjoint windows.
pub proof fn lemma_offset_next_page(page: int, page_size: int)
    requires
        1 <= page,
    ensures
        offset_spec(page + 1, page_size) == offset_spec(page, page_size) + page_size,
{
    assert(page * page_size == (page - 1) * page_size + page_size) by (nonlinear_arith);
}

} // verus!
