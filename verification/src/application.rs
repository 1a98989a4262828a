//! The use cases of the item service. Each one holds the item store it works
//! with; the store is reached asynchronously by the caller, and the decisions
//! taken between the store's answers are made here.

use vstd::prelude::*;
use vstd::string::*;

use crate::domain::{
    opt_str_view, CreateItemInput, Item, PaginatedResult, QueryOptions, QueryOptionsView,
    UpdateItemInput,
};
use crate::dto::{item_responses, response_of, ItemResponse};
use crate::errors::{AppError, AppErrorView};
use crate::text::{i64_to_string, signed_decimal};
use crate::types::{
    effective_page, effective_per_page, page_count, page_offset, ListQueryParams, ListResponse,
    PaginationMeta, SortOrder,
};

verus! {

/// The detail of the error reported when no item has id `id`.
pub open spec fn not_found_message(id: i64) -> Seq<char> {
    "Item with id "@ + signed_decimal(id as int) + " not found"@
}

/// The error reported when no item has id `id`.
pub fn item_not_found(id: i64) -> (res: AppError)
    ensures
        res@ == AppErrorView::NotFound(not_found_message(id)),
{
    let msg = String::from_str("Item with id ").concat(i64_to_string(id).as_str()).concat(
        " not found",
    );
    AppError::NotFound(msg)
}

/// Creating an item.
pub struct CreateItem<R> {
    repo: R,
}

impl<R> CreateItem<R> {
    /// The store this use case works with.
    pub closed spec fn spec_repo(&self) -> R {
        self.repo
    }

    /// The use case over `repo`.
    pub fn new(repo: R) -> (res: Self)
        ensures
            res.spec_repo() == repo,
    {
        CreateItem { repo }
    }

    /// The store this use case works with.
    pub fn repo(&self) -> (res: &R)
        ensures
            *res == self.spec_repo(),
    {
        &self.repo
    }

    /// What is handed to the store: the input itself, unless its name is empty,
    /// which is refused before the store is asked.
    pub fn check(&self, input: CreateItemInput) -> (res: Result<CreateItemInput, AppError>)
        ensures
            input.name@.len() == 0 ==> (res matches Err(e) && e@ == AppErrorView::ValidationError(
                "Name is required"@,
            )),
            input.name@.len() > 0 ==> (res matches Ok(i) && i == input),
    {
        if input.name.as_str().is_empty() {
            Err(AppError::ValidationError(String::from_str("Name is required")))
        } else {
            Ok(input)
        }
    }
}

/// Reading one item.
pub struct GetItem<R> {
    repo: R,
}

impl<R> GetItem<R> {
    /// The store this use case works with.
    pub closed spec fn spec_repo(&self) -> R {
        self.repo
    }

    /// The use case over `repo`.
    pub fn new(repo: R) -> (res: Self)
        ensures
            res.spec_repo() == repo,
    {
        GetItem { repo }
    }

    /// The store this use case works with.
    pub fn repo(&self) -> (res: &R)
        ensures
            *res == self.spec_repo(),
    {
        &self.repo
    }

    /// The outcome once the store has looked up `id`: the item found, a
    /// not-found error when there is none, or the store's own error.
    pub fn finish(&self, id: i64, lookup: Result<Option<Item>, AppError>) -> (res: Result<
        Item,
        AppError,
    >)
        ensures
            match lookup {
                Ok(Some(item)) => res matches Ok(r) && r == item,
                Ok(None) => res matches Err(e) && e@ == AppErrorView::NotFound(
                    not_found_message(id),
                ),
                Err(err) => res matches Err(e) && e == err,
            },
    {
        match lookup {
            Ok(Some(item)) => Ok(item),
            Ok(None) => Err(item_not_found(id)),
            Err(e) => Err(e),
        }
    }
}

/// Deleting an item.
pub struct DeleteItem<R> {
    repo: R,
}

impl<R> DeleteItem<R> {
    /// The store this use case works with.
    pub closed spec fn spec_repo(&self) -> R {
        self.repo
    }

    /// The use case over `repo`.
    pub fn new(repo: R) -> (res: Self)
        ensures
            res.spec_repo() == repo,
    {
        DeleteItem { repo }
    }

    /// The store this use case works with.
    pub fn repo(&self) -> (res: &R)
        ensures
            *res == self.spec_repo(),
    {
        &self.repo
    }

    /// The next step once the store has looked up `id`: the id to delete when the
    /// item exists, and otherwise the error the deletion ends with.
    pub fn after_lookup(&self, id: i64, lookup: Result<Option<Item>, AppError>) -> (res: Result<
        i64,
        AppError,
    >)
        ensures
            match lookup {
                Ok(Some(_)) => res == Ok::<i64, AppError>(id),
                Ok(None) => res matches Err(e) && e@ == AppErrorView::NotFound(
                    not_found_message(id),
                ),
                Err(err) => res matches Err(e) && e == err,
            },
    {
        match lookup {
            Ok(Some(_)) => Ok(id),
            Ok(None) => Err(item_not_found(id)),
            Err(e) => Err(e),
        }
    }
}

/// Updating an item.
pub struct UpdateItem<R> {
    repo: R,
}

impl<R> UpdateItem<R> {
    /// The store this use case works with.
    pub closed spec fn spec_repo(&self) -> R {
        self.repo
    }

    /// The use case over `repo`.
    pub fn new(repo: R) -> (res: Self)
        ensures
            res.spec_repo() == repo,
    {
        UpdateItem { repo }
    }

    /// The store this use case works with.
    pub fn repo(&self) -> (res: &R)
        ensures
            *res == self.spec_repo(),
    {
        &self.repo
    }

    /// The next step once the store has looked up `id`: the id and input to update
    /// with when the item exists, and otherwise the error the update ends with.
    pub fn after_lookup(
        &self,
        id: i64,
        input: UpdateItemInput,
        lookup: Result<Option<Item>, AppError>,
    ) -> (res: Result<(i64, UpdateItemInput), AppError>)
        ensures
            match lookup {
                Ok(Some(_)) => res matches Ok(p) && p.0 == id && p.1 == input,
                Ok(None) => res matches Err(e) && e@ == AppErrorView::NotFound(
                    not_found_message(id),
                ),
                Err(err) => res matches Err(e) && e == err,
            },
    {
        match lookup {
            Ok(Some(_)) => Ok((id, input)),
            Ok(None) => Err(item_not_found(id)),
            Err(e) => Err(e),
        }
    }
}

/// The store options that a listing request asks for.
pub open spec fn listing_options(
    page: Option<u32>,
    per_page: Option<u32>,
    search: Option<Seq<char>>,
    sort_by: Option<Seq<char>>,
    sort_order: Option<SortOrder>,
) -> QueryOptionsView {
    QueryOptionsView {
        limit: effective_per_page(per_page),
        offset: page_offset(effective_page(page), effective_per_page(per_page)) as u32,
        search: match search {
            Some(s) => if s.len() > 0 {
                Some(s)
            } else {
                None
            },
            None => None,
        },
        sort_by: match sort_by {
            Some(s) => s,
            None => "created_at"@,
        },
        sort_order: match sort_order {
            Some(o) => o,
            None => SortOrder::Desc,
        },
    }
}

/// Listing items.
pub struct ListItems<R> {
    repo: R,
}

impl<R> ListItems<R> {
    /// The store this use case works with.
    pub closed spec fn spec_repo(&self) -> R {
        self.repo
    }

    /// The use case over `repo`.
    pub fn new(repo: R) -> (res: Self)
        ensures
            res.spec_repo() == repo,
    {
        ListItems { repo }
    }

    /// The store this use case works with.
    pub fn repo(&self) -> (res: &R)
        ensures
            *res == self.spec_repo(),
    {
        &self.repo
    }

    /// The options the store is asked to list with: the page size and offset of the
    /// requested page, the search term when it is not empty, and the requested sort.
    pub fn query_options(&self, params: &ListQueryParams) -> (res: QueryOptions)
        requires
            page_offset(effective_page(params.page), effective_per_page(params.per_page))
                <= u32::MAX,
        ensures
            res@ == listing_options(
                params.page,
                params.per_page,
                opt_str_view(params.search),
                opt_str_view(params.sort_by),
                params.sort_order,
            ),
            params.sort_order is None ==> res.sort_order == SortOrder::Desc,
            params.sort_order matches Some(o) ==> res.sort_order == o,
            res.limit == effective_per_page(params.per_page),
    {
        let limit = params.per_page();
        let offset = params.offset();
        let search: Option<String> = match params.search() {
            Some(s) => Some(String::from_str(s)),
            None => None,
        };
        QueryOptions::new(limit, offset).with_search(search).with_sort(
            params.sort_by(),
            params.sort_order(),
        )
    }

    /// The response for one page: its items as the API reports them, with the
    /// requested page, page size, and the store's total.
    pub fn respond(&self, params: &ListQueryParams, result: PaginatedResult<Item>) -> (res:
        ListResponse<ItemResponse>)
        ensures
            res.data@.len() == result.items@.len(),
            forall|i: int|
                0 <= i < result.items@.len() ==> #[trigger] res.data@[i] == response_of(
                    result.items@[i],
                ),
            res.meta.page == effective_page(params.page),
            res.meta.per_page == effective_per_page(params.per_page),
            res.meta.total == result.total,
            res.meta.total_pages == page_count(result.total, effective_per_page(params.per_page)),
            res.meta.has_next == (res.meta.page < res.meta.total_pages),
            res.meta.has_prev == (res.meta.page > 1),
    {
        let meta = PaginationMeta::new(params.page(), params.per_page(), result.total);
        ListResponse::new(item_responses(result.items), meta)
    }
}

/// A listing request that names no sort direction lists newest first (descending),
/// and one that names a direction lists in that direction; the page size is the
/// requested one clamped to `1..=100`, 10 when absent; the offset skips the pages
/// before the requested one, none when no page is named.
pub proof fn lemma_listing_sort_and_size(
    page: Option<u32>,
    per_page: Option<u32>,
    search: Option<Seq<char>>,
    sort_by: Option<Seq<char>>,
    order: SortOrder,
)
    ensures
        listing_options(page, per_page, search, sort_by, None).sort_order == SortOrder::Desc,
        listing_options(page, per_page, search, sort_by, Some(order)).sort_order == order,
        1 <= listing_options(page, per_page, search, sort_by, None).limit <= 100,
        per_page is None ==> listing_options(page, per_page, search, sort_by, None).limit == 10,
        per_page matches Some(n) ==> (1 <= n <= 100 ==> listing_options(
            page,
            per_page,
            search,
            sort_by,
            None,
        ).limit == n),
        sort_by is None ==> listing_options(page, per_page, search, sort_by, None).sort_by
            == "created_at"@,
        sort_by matches Some(f) ==> listing_options(page, per_page, search, sort_by, None).sort_by
            == f,
        page is None ==> listing_options(page, per_page, search, sort_by, None).offset == 0,
        page matches Some(p) ==> (1 <= p && (p - 1) * listing_options(
            page,
            per_page,
            search,
            sort_by,
            None,
        ).limit <= u32::MAX ==> listing_options(page, per_page, search, sort_by, None).offset
            == (p - 1) * listing_options(page, per_page, search, sort_by, None).limit),
        search matches Some(t) ==> (t.len() > 0 ==> listing_options(
            page,
            per_page,
            search,
            sort_by,
            None,
        ).search == search),
        search matches Some(t) ==> (t.len() == 0 ==> listing_options(
            page,
            per_page,
            search,
            sort_by,
            None,
        ).search is None),
{
    let pp = effective_per_page(per_page);
    assert(page_offset(1, pp) == 0) by (nonlinear_arith)
        requires
            page_offset(1, pp) == (1 - 1) * pp,
    ;
}

} // verus!
