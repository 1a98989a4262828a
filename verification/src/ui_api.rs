//! The requests the front end makes to the item API: where they go, and what
//! it keeps of the answers.

use vstd::prelude::*;
use vstd::string::*;

use crate::domain::opt_str_view;
use crate::text::{
    decimal, i64_to_string, join, join_strings, signed_decimal, strings_view, u64_to_string,
};
use crate::ui_types::{Item, ListResponse, PaginationMeta, SingleResponse};

verus! {

/// The path of the item collection of the API.
pub open spec fn items_path() -> Seq<char> {
    "/api/v1/items"@
}

/// The parameters of a listing request, each of them optional.
#[derive(Debug, Clone)]
pub struct FetchParams {
    pub page: Option<u32>,
    pub per_page: Option<u32>,
    pub search: Option<String>,
    pub sort_by: Option<String>,
    pub sort_order: Option<String>,
}

impl Default for FetchParams {
    /// No parameter given.
    fn default() -> (res: Self)
        ensures
            res.page is None,
            res.per_page is None,
            res.search is None,
            res.sort_by is None,
            res.sort_order is None,
    {
        FetchParams { page: None, per_page: None, search: None, sort_by: None, sort_order: None }
    }
}

/// One page of items with its pagination figures.
#[derive(Debug)]
pub struct FetchResult {
    pub items: Vec<Item>,
    pub pagination: PaginationMeta,
}

/// The query-string part `key=value` when a value is given.
pub open spec fn query_part(key: Seq<char>, value: Option<Seq<char>>) -> Seq<Seq<char>> {
    match value {
        Some(v) => seq![key + "="@ + v],
        None => Seq::empty(),
    }
}

/// The query-string parts of a listing request, in order: page, page size, the
/// search term when it is not empty, sort field and sort direction.
pub open spec fn query_parts(
    page: Option<u32>,
    per_page: Option<u32>,
    search: Option<Seq<char>>,
    sort_by: Option<Seq<char>>,
    sort_order: Option<Seq<char>>,
) -> Seq<Seq<char>> {
    query_part(
        "page"@,
        match page {
            Some(p) => Some(decimal(p as nat)),
            None => None,
        },
    ) + query_part(
        "per_page"@,
        match per_page {
            Some(p) => Some(decimal(p as nat)),
            None => None,
        },
    ) + query_part(
        "search"@,
        match search {
            Some(s) => if s.len() > 0 {
                Some(s)
            } else {
                None
            },
            None => None,
        },
    ) + query_part("sort_by"@, sort_by) + query_part("sort_order"@, sort_order)
}

/// The URL of a listing request with the given query-string parts.
pub open spec fn listing_url(parts: Seq<Seq<char>>) -> Seq<char> {
    if parts.len() == 0 {
        items_path()
    } else {
        items_path() + "?"@ + join(parts, "&"@)
    }
}

/// The URL of one item.
pub open spec fn item_url_spec(id: i64) -> Seq<char> {
    "/api/v1/items/"@ + signed_decimal(id as int)
}

fn push_part(parts: &mut Vec<String>, key: &str, value: &str)
    ensures
        strings_view(final(parts)@) == strings_view(old(parts)@).push(key@ + "="@ + value@),
{
    let ghost before = strings_view(parts@);
    let part = String::from_str(key).concat("=").concat(value);
    parts.push(part);
    assert(strings_view(parts@) =~= before.push(key@ + "="@ + value@));
}

/// The URL that lists items with these parameters.
pub fn items_url(params: &FetchParams) -> (res: String)
    ensures
        res@ == listing_url(
            query_parts(
                params.page,
                params.per_page,
                opt_str_view(params.search),
                opt_str_view(params.sort_by),
                opt_str_view(params.sort_order),
            ),
        ),
{
    let mut parts: Vec<String> = Vec::new();
    let ghost e = Seq::<Seq<char>>::empty();
    let ghost q1 = query_part(
        "page"@,
        match params.page {
            Some(p) => Some(decimal(p as nat)),
            None => None,
        },
    );
    if let Some(page) = params.page {
        push_part(&mut parts, "page", u64_to_string(page as u64).as_str());
    }
    assert(strings_view(parts@) =~= e + q1);
    let ghost q2 = query_part(
        "per_page"@,
        match params.per_page {
            Some(p) => Some(decimal(p as nat)),
            None => None,
        },
    );
    if let Some(per_page) = params.per_page {
        push_part(&mut parts, "per_page", u64_to_string(per_page as u64).as_str());
    }
    assert(strings_view(parts@) =~= e + q1 + q2);
    let ghost q3 = query_part(
        "search"@,
        match opt_str_view(params.search) {
            Some(s) => if s.len() > 0 {
                Some(s)
            } else {
                None
            },
            None => None,
        },
    );
    if let Some(search) = &params.search {
        if !search.as_str().is_empty() {
            push_part(&mut parts, "search", search.as_str());
        }
    }
    assert(strings_view(parts@) =~= e + q1 + q2 + q3);
    let ghost q4 = query_part("sort_by"@, opt_str_view(params.sort_by));
    if let Some(sort_by) = &params.sort_by {
        push_part(&mut parts, "sort_by", sort_by.as_str());
    }
    assert(strings_view(parts@) =~= e + q1 + q2 + q3 + q4);
    let ghost q5 = query_part("sort_order"@, opt_str_view(params.sort_order));
    if let Some(sort_order) = &params.sort_order {
        push_part(&mut parts, "sort_order", sort_order.as_str());
    }
    assert(strings_view(parts@) =~= q1 + q2 + q3 + q4 + q5);
    let url = String::from_str("/api/v1/items");
    if parts.len() == 0 {
        url
    } else {
        let joined = join_strings(&parts, "&");
        url.concat("?").concat(joined.as_str())
    }
}

/// The URL of the item with id `id`.
pub fn item_url(id: i64) -> (res: String)
    ensures
        res@ == item_url_spec(id),
{
    String::from_str("/api/v1/items/").concat(i64_to_string(id).as_str())
}

/// The URL items are created at.
pub fn items_collection_url() -> (res: String)
    ensures
        res@ == items_path(),
{
    String::from_str("/api/v1/items")
}

impl FetchResult {
    /// What the front end keeps of a listing response: its items and its
    /// pagination figures.
    pub fn from_response(response: ListResponse<Item>) -> (res: FetchResult)
        ensures
            res.items == response.data,
            res.pagination == response.meta.pagination,
    {
        FetchResult { items: response.data, pagination: response.meta.pagination }
    }
}

/// The value a single-value response carries.
pub fn single_data<T>(response: SingleResponse<T>) -> (res: T)
    ensures
        res == response.data,
{
    response.data
}

} // verus!
