//! The request and response bodies of the item API, and how they map to the
//! entities of the service.

use vstd::prelude::*;

use crate::domain::{CreateItemInput, Item, UpdateItemInput};

verus! {

/// The body of a create request.
#[derive(Debug)]
pub struct CreateItemRequest {
    pub name: String,
    pub description: Option<String>,
}

impl From<CreateItemRequest> for CreateItemInput {
    /// The request's fields, unchanged.
    fn from(req: CreateItemRequest) -> (res: CreateItemInput) {
        CreateItemInput { name: req.name, description: req.description }
    }
}

impl vstd::std_specs::convert::FromSpecImpl<CreateItemRequest> for CreateItemInput {
    open spec fn obeys_from_spec() -> bool {
        true
    }

    open spec fn from_spec(req: CreateItemRequest) -> CreateItemInput {
        CreateItemInput { name: req.name, description: req.description }
    }
}

/// The body of an update request; an absent field keeps its value.
#[derive(Debug)]
pub struct UpdateItemRequest {
    pub name: Option<String>,
    pub description: Option<String>,
}

impl From<UpdateItemRequest> for UpdateItemInput {
    /// The request's fields, unchanged.
    fn from(req: UpdateItemRequest) -> (res: UpdateItemInput) {
        UpdateItemInput { name: req.name, description: req.description }
    }
}

impl vstd::std_specs::convert::FromSpecImpl<UpdateItemRequest> for UpdateItemInput {
    open spec fn obeys_from_spec() -> bool {
        true
    }

    open spec fn from_spec(req: UpdateItemRequest) -> UpdateItemInput {
        UpdateItemInput { name: req.name, description: req.description }
    }
}

/// An item as the API reports it.
#[derive(Debug)]
pub struct ItemResponse {
    pub id: i64,
    pub name: String,
    pub description: Option<String>,
    pub created_at: String,
}

impl From<Item> for ItemResponse {
    /// The item's fields, unchanged.
    fn from(item: Item) -> (res: ItemResponse) {
        ItemResponse {
            id: item.id,
            name: item.name,
            description: item.description,
            created_at: item.created_at,
        }
    }
}

impl vstd::std_specs::convert::FromSpecImpl<Item> for ItemResponse {
    open spec fn obeys_from_spec() -> bool {
        true
    }

    open spec fn from_spec(item: Item) -> ItemResponse {
        ItemResponse {
            id: item.id,
            name: item.name,
            description: item.description,
            created_at: item.created_at,
        }
    }
}

/// The response for one item.
pub open spec fn response_of(item: Item) -> ItemResponse {
    ItemResponse {
        id: item.id,
        name: item.name,
        description: item.description,
        created_at: item.created_at,
    }
}

/// The responses for a list of items, in the same order.
pub fn item_responses(items: Vec<Item>) -> (res: Vec<ItemResponse>)
    ensures
        res@.len() == items@.len(),
        forall|i: int|
            0 <= i < items@.len() ==> #[trigger] res@[i] == response_of(items@[i]),
{
    let mut res: Vec<ItemResponse> = Vec::new();
    let mut rest = items;
    let ghost all = rest@;
    let n = rest.len();
    let mut k: usize = 0;
    while k < n
        invariant
            n == all.len(),
            k <= n,
            rest@ == all.skip(k as int),
            res@.len() == k,
            forall|i: int| 0 <= i < k ==> #[trigger] res@[i] == response_of(all[i]),
        decreases n - k,
    {
        let item = rest.remove(0);
        assert(item == all[k as int]);
        assert(rest@ =~= all.skip(k as int + 1));
        res.push(ItemResponse::from(item));
        k = k + 1;
    }
    res
}

} // verus!
