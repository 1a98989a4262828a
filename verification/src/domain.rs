//! The entities of the item service and the options of a listing query.

use vstd::prelude::*;
use vstd::string::*;

use crate::types::SortOrder;

verus! {

/// The abstract content of an optional string.
pub open spec fn opt_str_view(o: Option<String>) -> Option<Seq<char>> {
    match o {
        Some(s) => Some(s@),
        None => None,
    }
}

/// A stored item.
#[derive(Debug, Clone)]
pub struct Item {
    pub id: i64,
    pub name: String,
    pub description: Option<String>,
    pub created_at: String,
}

/// The abstract content of an [`Item`].
pub struct ItemView {
    pub id: i64,
    pub name: Seq<char>,
    pub description: Option<Seq<char>>,
    pub created_at: Seq<char>,
}

impl View for Item {
    type V = ItemView;

    open spec fn view(&self) -> ItemView {
        ItemView {
            id: self.id,
            name: self.name@,
            description: opt_str_view(self.description),
            created_at: self.created_at@,
        }
    }
}

/// What a new item is made of.
#[derive(Debug, Clone)]
pub struct CreateItemInput {
    pub name: String,
    pub description: Option<String>,
}

/// What an update changes; an absent field keeps its current value.
#[derive(Debug, Clone)]
pub struct UpdateItemInput {
    pub name: Option<String>,
    pub description: Option<String>,
}

/// One page of a listing together with the number of all matching items.
#[derive(Debug, Clone)]
pub struct PaginatedResult<T> {
    pub items: Vec<T>,
    pub total: u64,
}

/// How a listing is paged, filtered and sorted.
#[derive(Debug, Clone)]
pub struct QueryOptions {
    pub limit: u32,
    pub offset: u32,
    pub search: Option<String>,
    pub sort_by: String,
    pub sort_order: SortOrder,
}

/// The abstract content of [`QueryOptions`].
pub struct QueryOptionsView {
    pub limit: u32,
    pub offset: u32,
    pub search: Option<Seq<char>>,
    pub sort_by: Seq<char>,
    pub sort_order: SortOrder,
}

impl View for QueryOptions {
    type V = QueryOptionsView;

    open spec fn view(&self) -> QueryOptionsView {
        QueryOptionsView {
            limit: self.limit,
            offset: self.offset,
            search: opt_str_view(self.search),
            sort_by: self.sort_by@,
            sort_order: self.sort_order,
        }
    }
}

impl Default for QueryOptions {
    /// No limit, no offset, no search, no sort field, descending.
    fn default() -> (res: Self)
        ensures
            res@ == (QueryOptionsView {
                limit: 0,
                offset: 0,
                search: None,
                sort_by: Seq::empty(),
                sort_order: SortOrder::Desc,
            }),
    {
        QueryOptions {
            limit: 0,
            offset: 0,
            search: None,
            sort_by: String::new(),
            sort_order: SortOrder::Desc,
        }
    }
}

impl QueryOptions {
    /// A page of `limit` items after `offset`, unfiltered, newest first.
    pub fn new(limit: u32, offset: u32) -> (res: Self)
        ensures
            res@ == (QueryOptionsView {
                limit,
                offset,
                search: None,
                sort_by: "created_at"@,
                sort_order: SortOrder::Desc,
            }),
    {
        QueryOptions {
            limit,
            offset,
            search: None,
            sort_by: String::from_str("created_at"),
            sort_order: SortOrder::Desc,
        }
    }

    /// The same options with the search term replaced.
    pub fn with_search(self, search: Option<String>) -> (res: Self)
        ensures
            res@ == (QueryOptionsView { search: opt_str_view(search), ..self@ }),
    {
        let mut s = self;
        s.search = search;
        s
    }

    /// The same options with the sort field and direction replaced.
    pub fn with_sort(self, sort_by: &str, sort_order: SortOrder) -> (res: Self)
        ensures
            res@ == (QueryOptionsView { sort_by: sort_by@, sort_order, ..self@ }),
    {
        let mut s = self;
        s.sort_by = String::from_str(sort_by);
        s.sort_order = sort_order;
        s
    }
}

/// The search-term part and the sort part of the options are independent:
/// setting one and then the other gives the same options in either order.
pub proof fn lemma_search_and_sort_commute(
    o: QueryOptionsView,
    search: Option<Seq<char>>,
    sort_by: Seq<char>,
    sort_order: SortOrder,
)
    ensures
        (QueryOptionsView { sort_by, sort_order, ..(QueryOptionsView { search, ..o }) })
            == (QueryOptionsView { search, ..(QueryOptionsView { sort_by, sort_order, ..o }) }),
{
}

} // verus!
