//! The data the front end exchanges with the item API.

use vstd::prelude::*;

use crate::domain::opt_str_view;

verus! {

/// An item as the front end receives it.
#[derive(Debug, Clone)]
pub struct Item {
    pub id: i64,
    pub name: String,
    pub description: Option<String>,
    pub created_at: String,
}

/// The abstract content of an [`Item`] of the front end.
pub struct UiItemView {
    pub id: i64,
    pub name: Seq<char>,
    pub description: Option<Seq<char>>,
    pub created_at: Seq<char>,
}

impl View for Item {
    type V = UiItemView;

    open spec fn view(&self) -> UiItemView {
        UiItemView {
            id: self.id,
            name: self.name@,
            description: opt_str_view(self.description),
            created_at: self.created_at@,
        }
    }
}

/// The body the front end sends to create an item.
#[derive(Debug, Clone)]
pub struct CreateItemRequest {
    pub name: String,
    pub description: Option<String>,
}

/// The body the front end sends to update an item.
#[derive(Debug, Clone)]
pub struct UpdateItemRequest {
    pub name: Option<String>,
    pub description: Option<String>,
}

/// A response carrying one value.
#[derive(Debug, Clone)]
pub struct SingleResponse<T> {
    pub data: T,
    pub message: String,
}

/// Pagination figures as the front end receives them.
#[derive(Debug, Clone)]
pub struct PaginationMeta {
    pub page: u32,
    pub per_page: u32,
    pub total: u64,
    pub total_pages: u32,
    pub has_next: bool,
    pub has_prev: bool,
}

/// The metadata of a listing response.
#[derive(Debug, Clone)]
pub struct ListMeta {
    pub pagination: PaginationMeta,
}

/// A response carrying one page of a listing.
#[derive(Debug, Clone)]
pub struct ListResponse<T> {
    pub data: Vec<T>,
    pub meta: ListMeta,
}

} // verus!
