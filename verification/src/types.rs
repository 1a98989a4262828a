//! Query parameters and response envelopes of the item API.

use vstd::prelude::*;
use vstd::string::*;

verus! {

/// A response envelope for one value and a status message.
#[derive(Debug)]
pub struct SingleResponse<T> {
    pub data: T,
    pub message: String,
}

impl<T> SingleResponse<T> {
    /// Wraps `data` with `message`.
    pub fn new(data: T, message: &str) -> (res: Self)
        ensures
            res.data == data,
            res.message@ == message@,
    {
        SingleResponse { data, message: String::from_str(message) }
    }
}

/// The direction in which a listing is sorted.
#[derive(Debug, Clone, Copy, PartialEq, Eq, Structural)]
pub enum SortOrder {
    Asc,
    Desc,
}

impl Default for SortOrder {
    /// Listings are sorted in descending order unless asked otherwise.
    fn default() -> (res: Self)
        ensures
            res == SortOrder::Desc,
    {
        SortOrder::Desc
    }
}

/// The query parameters of a listing request, each of them optional.
#[derive(Debug)]
pub struct ListQueryParams {
    pub page: Option<u32>,
    pub per_page: Option<u32>,
    pub search: Option<String>,
    pub sort_by: Option<String>,
    pub sort_order: Option<SortOrder>,
}

impl Default for ListQueryParams {
    /// No parameter given.
    fn default() -> (res: Self)
        ensures
            res.page is None,
            res.per_page is None,
            res.search is None,
            res.sort_by is None,
            res.sort_order is None,
    {
        ListQueryParams { page: None, per_page: None, search: None, sort_by: None, sort_order: None }
    }
}

/// The page number a request asks for: 1 when absent, and never below 1.
pub open spec fn effective_page(page: Option<u32>) -> u32 {
    match page {
        Some(p) => if p < 1 { 1 } else { p },
        None => 1,
    }
}

/// The page size a request asks for: 10 when absent, and clamped to `1..=100`.
pub open spec fn effective_per_page(per_page: Option<u32>) -> u32 {
    match per_page {
        Some(n) => if n < 1 { 1 } else if n > 100 { 100 } else { n },
        None => 10,
    }
}

/// The number of items that come before the requested page.
pub open spec fn page_offset(page: u32, per_page: u32) -> int {
    (page - 1) * per_page
}

impl ListQueryParams {
    /// The requested page number, at least 1.
    pub fn page(&self) -> (res: u32)
        ensures
            res == effective_page(self.page),
            res >= 1,
    {
        match self.page {
            Some(p) => if p < 1 { 1 } else { p },
            None => 1,
        }
    }

    /// The requested page size, between 1 and 100.
    pub fn per_page(&self) -> (res: u32)
        ensures
            res == effective_per_page(self.per_page),
            1 <= res <= 100,
    {
        match self.per_page {
            Some(n) => if n < 1 { 1 } else if n > 100 { 100 } else { n },
            None => 10,
        }
    }

    /// The number of items before the requested page.
    pub fn offset(&self) -> (res: u32)
        requires
            page_offset(effective_page(self.page), effective_per_page(self.per_page))
                <= u32::MAX,
        ensures
            res == page_offset(effective_page(self.page), effective_per_page(self.per_page)),
    {
        let p = self.page();
        let n = self.per_page();
        assert((p - 1) * n <= u32::MAX);
        (p - 1) * n
    }

    /// Whether the offset of the requested page fits in a `u32`, which
    /// [`ListQueryParams::offset`] needs.
    pub fn offset_fits(&self) -> (res: bool)
        ensures
            res == (page_offset(effective_page(self.page), effective_per_page(self.per_page))
                <= u32::MAX),
    {
        let p = self.page() as u64;
        let n = self.per_page() as u64;
        assert((p - 1) * n <= 4294967295u64 * 100) by (nonlinear_arith)
            requires
                1 <= p <= 4294967295u64,
                n <= 100,
        {
        }
        (p - 1) * n <= u32::MAX as u64
    }

    /// The search term, when one is given and it is not empty.
    pub fn search(&self) -> (res: Option<&str>)
        ensures
            match self.search {
                Some(s) => if s@.len() > 0 {
                    res matches Some(r) && r@ == s@
                } else {
                    res is None
                },
                None => res is None,
            },
    {
        match &self.search {
            Some(s) => if s.as_str().is_empty() {
                None
            } else {
                Some(s.as_str())
            },
            None => None,
        }
    }

    /// The field to sort by, `created_at` when none is given.
    pub fn sort_by(&self) -> (res: &str)
        ensures
            match self.sort_by {
                Some(s) => res@ == s@,
                None => res@ == "created_at"@,
            },
    {
        match &self.sort_by {
            Some(s) => s.as_str(),
            None => "created_at",
        }
    }

    /// The sort direction, descending when none is given.
    pub fn sort_order(&self) -> (res: SortOrder)
        ensures
            res == match self.sort_order {
                Some(o) => o,
                None => SortOrder::Desc,
            },
    {
        match self.sort_order {
            Some(o) => o,
            None => SortOrder::default(),
        }
    }
}

/// Pagination figures of a listing.
#[derive(Debug, Clone)]
pub struct PaginationMeta {
    pub page: u32,
    pub per_page: u32,
    pub total: u64,
    pub total_pages: u32,
    pub has_next: bool,
    pub has_prev: bool,
}

/// The number of pages that `total` items fill at `per_page` items a page, at least
/// one, and `u32::MAX` when it does not fit in a `u32` (or when the page size is 0).
pub open spec fn page_count(total: u64, per_page: u32) -> u32 {
    if total == 0 {
        1
    } else if per_page == 0 {
        u32::MAX
    } else {
        let pages = (total + per_page - 1) / (per_page as int);
        if pages > u32::MAX {
            u32::MAX
        } else {
            pages as u32
        }
    }
}

impl PaginationMeta {
    /// The figures for page `page` of `total` items at `per_page` items a page.
    pub fn new(page: u32, per_page: u32, total: u64) -> (res: Self)
        ensures
            res.page == page,
            res.per_page == per_page,
            res.total == total,
            res.total_pages == page_count(total, per_page),
            res.has_next == (page < res.total_pages),
            res.has_prev == (page > 1),
    {
        let total_pages: u32 = if total == 0 {
            1
        } else if per_page == 0 {
            u32::MAX
        } else {
            let pp = per_page as u64;
            let q: u64 = total / pp;
            let r: u64 = total % pp;
            if r != 0 {
                assert(q < u64::MAX) by (nonlinear_arith)
                    requires
                        pp > 0,
                        r != 0,
                        q == total / pp,
                        r == total % pp,
                {
                    if pp == 1 {
                        assert(total % 1 == 0);
                    } else {
                        assert(q * pp <= total);
                    }
                }
            }
            let pages: u64 = if r == 0 { q } else { q + 1 };
            assert(pages == (total + per_page - 1) / (per_page as int)) by (nonlinear_arith)
                requires
                    pp == per_page,
                    pp > 0,
                    pages == total / pp + if total % pp == 0 { 0int } else { 1int },
            {
            }
            if pages > u32::MAX as u64 {
                u32::MAX
            } else {
                pages as u32
            }
        };
        PaginationMeta {
            page,
            per_page,
            total,
            total_pages,
            has_next: page < total_pages,
            has_prev: page > 1,
        }
    }
}

/// A response envelope for one page of a listing.
#[derive(Debug)]
pub struct ListResponse<T> {
    pub data: Vec<T>,
    pub meta: PaginationMeta,
}

impl<T> ListResponse<T> {
    /// Wraps one page of `data` with its pagination figures.
    pub fn new(data: Vec<T>, meta: PaginationMeta) -> (res: Self)
        ensures
            res.data == data,
            res.meta == meta,
    {
        ListResponse { data, meta }
    }
}

/// An HTTP header to set on a response.
#[derive(Debug)]
pub struct Header {
    pub name: String,
    pub value: String,
}

/// The abstract content of a [`Header`].
pub open spec fn header_view(h: Header) -> (Seq<char>, Seq<char>) {
    (h.name@, h.value@)
}

/// The abstract content of a list of headers.
pub open spec fn headers_view(hs: Seq<Header>) -> Seq<(Seq<char>, Seq<char>)> {
    hs.map_values(|h: Header| header_view(h))
}

/// A header with the given name and value.
pub fn header(name: &str, value: &str) -> (res: Header)
    ensures
        res.name@ == name@,
        res.value@ == value@,
{
    Header { name: String::from_str(name), value: String::from_str(value) }
}

// ---------------------------------------------------------------------------
// Laws of pagination
// ---------------------------------------------------------------------------

/// Every page a listing reports lies within the item count: with a page size
/// above 0, a page number not beyond `total_pages` is exactly one whose offset
/// lies before the end of the items (when there are items and the page count
/// fits in a `u32`).
pub proof fn lemma_page_within_total(page: u32, per_page: u32, total: u64)
    requires
        page >= 1,
        per_page >= 1,
        total >= 1,
        (total + per_page - 1) / (per_page as int) <= u32::MAX,
    ensures
        (page <= page_count(total, per_page)) <==> (page_offset(page, per_page) < total),
{
    let pp = per_page as int;
    let t = total as int;
    let p = page as int;
    let c = (t + pp - 1) / pp;
    assert(page_count(total, per_page) == c);
    assert((p <= c) <==> ((p - 1) * pp < t)) by (nonlinear_arith)
        requires
            pp >= 1,
            t >= 1,
            p >= 1,
            c == (t + pp - 1) / pp,
    {
        assert((c - 1) * pp < t);
        assert(c * pp >= t);
        if p <= c {
            assert((p - 1) * pp <= (c - 1) * pp);
        } else {
            assert((p - 1) * pp >= c * pp);
        }
    }
}

/// The pages of a listing cover all its items and no more than needed: when the
/// page count fits in a `u32`, `total_pages * per_page` reaches `total`, and one
/// page fewer does not.
pub proof fn lemma_page_count_tight(per_page: u32, total: u64)
    requires
        per_page >= 1,
        total >= 1,
        (total + per_page - 1) / (per_page as int) <= u32::MAX,
    ensures
        page_count(total, per_page) * per_page >= total,
        (page_count(total, per_page) - 1) * per_page < total,
        page_count(total, per_page) >= 1,
{
    let pp = per_page as int;
    let t = total as int;
    let c = (t + pp - 1) / pp;
    assert(c * pp >= t && (c - 1) * pp < t && c >= 1) by (nonlinear_arith)
        requires
            pp >= 1,
            t >= 1,
            c == (t + pp - 1) / pp,
    {
    }
}

} // verus!
