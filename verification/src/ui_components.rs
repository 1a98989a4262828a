//! The decisions of the front end's components: styling of buttons and panels,
//! the item form, and the item list.

use vstd::prelude::*;
use vstd::string::*;

use crate::domain::opt_str_view;
use crate::ui_types::{CreateItemRequest, Item, UpdateItemRequest};

verus! {

/// The visual style of a button.
#[derive(Debug, Clone, Copy, PartialEq, Eq, Structural)]
pub enum ButtonVariant {
    Default,
    Destructive,
    Outline,
    Secondary,
    Transparent,
}

impl Default for ButtonVariant {
    /// The primary style.
    fn default() -> (res: Self)
        ensures
            res == ButtonVariant::Default,
    {
        ButtonVariant::Default
    }
}

/// The size of a button.
#[derive(Debug, Clone, Copy, PartialEq, Eq, Structural)]
pub enum ButtonSize {
    Default,
    Sm,
    Lg,
    Icon,
}

impl Default for ButtonSize {
    /// The regular size.
    fn default() -> (res: Self)
        ensures
            res == ButtonSize::Default,
    {
        ButtonSize::Default
    }
}

/// The style classes of a button variant.
pub open spec fn variant_classes(v: ButtonVariant) -> Seq<char> {
    match v {
        ButtonVariant::Default => "bg-primary text-primary-foreground shadow hover:bg-primary/90"@,
        ButtonVariant::Destructive => "bg-destructive text-destructive-foreground shadow-sm hover:bg-destructive/90"@,
        ButtonVariant::Outline => "border border-input bg-background shadow-sm hover:bg-accent hover:text-accent-foreground"@,
        ButtonVariant::Secondary => "bg-secondary text-secondary-foreground shadow-sm hover:bg-secondary/80"@,
        ButtonVariant::Transparent => "hover:bg-accent hover:text-accent-foreground"@,
    }
}

/// The size classes of a button size.
pub open spec fn size_classes(s: ButtonSize) -> Seq<char> {
    match s {
        ButtonSize::Default => "h-9 px-4 py-2"@,
        ButtonSize::Sm => "h-8 rounded-md px-3 text-xs"@,
        ButtonSize::Lg => "h-10 rounded-md px-8"@,
        ButtonSize::Icon => "h-9 w-9"@,
    }
}

/// The style classes of a button variant.
pub fn variant_class(variant: ButtonVariant) -> (res: &'static str)
    ensures
        res@ == variant_classes(variant),
{
    match variant {
        ButtonVariant::Default => "bg-primary text-primary-foreground shadow hover:bg-primary/90",
        ButtonVariant::Destructive => "bg-destructive text-destructive-foreground shadow-sm hover:bg-destructive/90",
        ButtonVariant::Outline => "border border-input bg-background shadow-sm hover:bg-accent hover:text-accent-foreground",
        ButtonVariant::Secondary => "bg-secondary text-secondary-foreground shadow-sm hover:bg-secondary/80",
        ButtonVariant::Transparent => "hover:bg-accent hover:text-accent-foreground",
    }
}

/// The size classes of a button size.
pub fn size_class(size: ButtonSize) -> (res: &'static str)
    ensures
        res@ == size_classes(size),
{
    match size {
        ButtonSize::Default => "h-9 px-4 py-2",
        ButtonSize::Sm => "h-8 rounded-md px-3 text-xs",
        ButtonSize::Lg => "h-10 rounded-md px-8",
        ButtonSize::Icon => "h-9 w-9",
    }
}

/// Class lists joined by a space.
pub fn with_class(base: &str, extra: &str) -> (res: String)
    ensures
        res@ == base@ + " "@ + extra@,
{
    String::from_str(base).concat(" ").concat(extra)
}

/// The classes every button has.
pub open spec fn button_base() -> Seq<char> {
    "inline-flex items-center justify-center gap-2 whitespace-nowrap rounded-md text-sm font-medium transition-colors focus-visible:outline-none focus-visible:ring-1 focus-visible:ring-ring disabled:pointer-events-none disabled:opacity-50"@
}

/// The full class list of a button: the common classes, its variant, its size,
/// and the caller's own classes.
pub fn button_class(variant: ButtonVariant, size: ButtonSize, class: &str) -> (res: String)
    ensures
        res@ == button_base() + " "@ + variant_classes(variant) + " "@ + size_classes(size) + " "@
            + class@,
{
    let base = "inline-flex items-center justify-center gap-2 whitespace-nowrap rounded-md text-sm font-medium transition-colors focus-visible:outline-none focus-visible:ring-1 focus-visible:ring-ring disabled:pointer-events-none disabled:opacity-50";
    String::from_str(base).concat(" ").concat(variant_class(variant)).concat(" ").concat(
        size_class(size),
    ).concat(" ").concat(class)
}

/// The `type` attribute of a button: the given one, `button` by default.
pub fn button_type(given: Option<String>) -> (res: String)
    ensures
        res@ == match given {
            Some(t) => t@,
            None => "button"@,
        },
{
    match given {
        Some(t) => t,
        None => String::from_str("button"),
    }
}

/// What submitting the item form sends.
#[derive(Debug)]
pub enum Submission {
    /// A new item.
    Create(CreateItemRequest),
    /// New values for the item with id `id`.
    Update { id: i64, request: UpdateItemRequest },
}

/// The description the form sends: none when the field is empty.
pub open spec fn form_description(text: Seq<char>) -> Option<Seq<char>> {
    if text.len() == 0 {
        None
    } else {
        Some(text)
    }
}

/// What the item form sends for its name and description fields: an update of
/// the item being edited, or a new item when none is being edited.
pub fn form_submission(editing: Option<&Item>, name: String, description: String) -> (res:
    Submission)
    ensures
        match editing {
            Some(item) => res matches Submission::Update { id, request } && id == item.id
                && opt_str_view(request.name) == Some(name@) && opt_str_view(request.description)
                == form_description(description@),
            None => res matches Submission::Create(request) && request.name@ == name@
                && opt_str_view(request.description) == form_description(description@),
        },
{
    let desc = if description.as_str().is_empty() {
        None
    } else {
        Some(description)
    };
    match editing {
        Some(item) => Submission::Update {
            id: item.id,
            request: UpdateItemRequest { name: Some(name), description: desc },
        },
        None => Submission::Create(CreateItemRequest { name, description: desc }),
    }
}

/// The name and description the form shows: those of the item being edited,
/// or empty fields.
pub fn form_fields(editing: Option<&Item>) -> (res: (String, String))
    ensures
        match editing {
            Some(item) => res.0@ == item.name@ && res.1@ == match opt_str_view(item.description) {
                Some(d) => d,
                None => Seq::empty(),
            },
            None => res.0@.len() == 0 && res.1@.len() == 0,
        },
{
    match editing {
        Some(item) => {
            let d = match &item.description {
                Some(d) => d.clone(),
                None => String::new(),
            };
            (item.name.clone(), d)
        },
        None => (String::new(), String::new()),
    }
}

/// The heading of the form panel.
pub fn form_title(editing: bool) -> (res: &'static str)
    ensures
        res@ == if editing {
            "Edit Item"@
        } else {
            "Create Item"@
        },
{
    if editing {
        "Edit Item"
    } else {
        "Create Item"
    }
}

/// The label of the form's submit button.
pub fn submit_label(submitting: bool, editing: bool) -> (res: &'static str)
    ensures
        res@ == if submitting {
            "Saving..."@
        } else if editing {
            "Update"@
        } else {
            "Create"@
        },
{
    if submitting {
        "Saving..."
    } else if editing {
        "Update"
    } else {
        "Create"
    }
}

/// How the item form changes once the API has answered a submission.
#[derive(Debug)]
pub struct SubmitEffects {
    /// Whether the name and description fields are emptied.
    pub clear_fields: bool,
    /// Whether the form stops editing the item it was editing.
    pub stop_editing: bool,
    /// Whether the page is told that the items changed.
    pub notify_success: bool,
    /// The error the form shows, if any.
    pub error: Option<String>,
    /// Whether the form is still submitting.
    pub submitting: bool,
}

/// The form's reaction to the API's answer: on success it empties its fields,
/// stops editing and tells the page; on failure it shows the error. Either way
/// it is no longer submitting.
pub fn after_submit<T>(answer: Result<T, String>) -> (res: SubmitEffects)
    ensures
        !res.submitting,
        match answer {
            Ok(_) => res.clear_fields && res.stop_editing && res.notify_success && res.error is None,
            Err(e) => !res.clear_fields && !res.stop_editing && !res.notify_success
                && (res.error matches Some(m) && m@ == e@),
        },
{
    match answer {
        Ok(_) => SubmitEffects {
            clear_fields: true,
            stop_editing: true,
            notify_success: true,
            error: None,
            submitting: false,
        },
        Err(e) => SubmitEffects {
            clear_fields: false,
            stop_editing: false,
            notify_success: false,
            error: Some(e),
            submitting: false,
        },
    }
}

/// How the page changes once a listing has been fetched.
#[derive(Debug)]
pub struct FetchEffects<T> {
    /// The items to show, when the fetch brought them.
    pub items: Option<T>,
    /// The error to show, when the fetch failed.
    pub error: Option<String>,
    /// Whether the page is still loading.
    pub loading: bool,
}

/// The page's reaction to a fetched listing: the items on success, the error
/// on failure, and loading is over either way.
pub fn after_fetch<T>(answer: Result<T, String>) -> (res: FetchEffects<T>)
    ensures
        !res.loading,
        match answer {
            Ok(items) => res.items == Some(items) && res.error is None,
            Err(e) => res.items is None && (res.error matches Some(m) && m@ == e@),
        },
{
    match answer {
        Ok(items) => FetchEffects { items: Some(items), error: None, loading: false },
        Err(e) => FetchEffects { items: None, error: Some(e), loading: false },
    }
}

/// What the items panel shows.
#[derive(Debug)]
pub enum ItemsPanel {
    /// A loading notice.
    Loading,
    /// The error of the last fetch.
    Failure(String),
    /// The item list.
    List,
}

/// The items panel: a loading notice while loading, else the error when there
/// is one, else the list.
pub fn items_panel(loading: bool, error: Option<String>) -> (res: ItemsPanel)
    ensures
        loading ==> res is Loading,
        !loading ==> match error {
            Some(e) => res matches ItemsPanel::Failure(m) && m@ == e@,
            None => res is List,
        },
{
    if loading {
        ItemsPanel::Loading
    } else {
        match error {
            Some(e) => ItemsPanel::Failure(e),
            None => ItemsPanel::List,
        }
    }
}

/// The text shown for a description: the description, or `-` when there is none.
pub fn description_text(description: &Option<String>) -> (res: String)
    ensures
        res@ == match opt_str_view(*description) {
            Some(d) => d,
            None => "-"@,
        },
{
    match description {
        Some(d) => d.clone(),
        None => String::from_str("-"),
    }
}

/// The items that remain shown after the item with id `id` is deleted: all the
/// others, in the same order.
pub open spec fn without_id(items: Seq<Item>, id: i64) -> Seq<Item> {
    items.filter(|i: Item| i.id != id)
}

/// Removes the items with id `id` from a list, keeping the order of the others.
pub fn remove_item(items: Vec<Item>, id: i64) -> (res: Vec<Item>)
    ensures
        res@ == without_id(items@, id),
        forall|k: int| 0 <= k < res@.len() ==> (#[trigger] res@[k]).id != id,
{
    let ghost all = items@;
    let mut rest = items;
    let mut res: Vec<Item> = Vec::new();
    let n = rest.len();
    let mut k: usize = 0;
    while k < n
        invariant
            n == all.len(),
            k <= n,
            rest@ == all.skip(k as int),
            res@ == without_id(all.take(k as int), id),
        decreases n - k,
    {
        let item = rest.remove(0);
        assert(item == all[k as int]);
        assert(rest@ =~= all.skip(k as int + 1));
        proof {
            let t = all.take(k as int + 1);
            assert(t.drop_last() =~= all.take(k as int));
            reveal_with_fuel(Seq::filter, 1);
        }
        if item.id != id {
            res.push(item);
        }
        k = k + 1;
    }
    assert(all.take(n as int) =~= all);
    proof {
        assert forall|k: int| 0 <= k < res@.len() implies (#[trigger] res@[k]).id != id by {
            all.lemma_filter_pred(|i: Item| i.id != id, k);
        }
    }
    res
}

} // verus!
