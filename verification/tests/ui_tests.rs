use worker_fullstack::ui_api::{item_url, items_collection_url, items_url, FetchParams, FetchResult};
use worker_fullstack::ui_components::{
    after_fetch, after_submit, items_panel, ItemsPanel,
    button_class, button_type, description_text, form_fields, form_submission, form_title,
    remove_item, size_class, submit_label, variant_class, with_class, ButtonSize, ButtonVariant,
    Submission,
};
use worker_fullstack::ui_types::{Item, ListMeta, ListResponse, PaginationMeta};

fn item(id: i64) -> Item {
    Item { id, name: format!("item {}", id), description: None, created_at: "now".into() }
}

#[test]
fn listing_urls() {
    assert_eq!(items_url(&FetchParams::default()), "/api/v1/items");
    let p = FetchParams {
        page: Some(2),
        per_page: Some(20),
        search: Some("foo".into()),
        sort_by: Some("name".into()),
        sort_order: Some("asc".into()),
    };
    assert_eq!(items_url(&p), "/api/v1/items?page=2&per_page=20&search=foo&sort_by=name&sort_order=asc");
    let p = FetchParams { search: Some(String::new()), sort_order: Some("desc".into()), ..FetchParams::default() };
    assert_eq!(items_url(&p), "/api/v1/items?sort_order=desc");
    assert_eq!(item_url(12), "/api/v1/items/12");
    assert_eq!(items_collection_url(), "/api/v1/items");
}

#[test]
fn fetch_result_keeps_items_and_pagination() {
    let resp = ListResponse {
        data: vec![item(1), item(2)],
        meta: ListMeta { pagination: PaginationMeta { page: 1, per_page: 10, total: 2, total_pages: 1, has_next: false, has_prev: false } },
    };
    let r = FetchResult::from_response(resp);
    assert_eq!(r.items.len(), 2);
    assert_eq!((r.pagination.total, r.pagination.total_pages), (2, 1));
}

#[test]
fn button_styles() {
    assert_eq!(variant_class(ButtonVariant::Destructive), "bg-destructive text-destructive-foreground shadow-sm hover:bg-destructive/90");
    assert_eq!(variant_class(ButtonVariant::Transparent), "hover:bg-accent hover:text-accent-foreground");
    assert_eq!(size_class(ButtonSize::Icon), "h-9 w-9");
    assert_eq!(ButtonVariant::default(), ButtonVariant::Default);
    assert_eq!(ButtonSize::default(), ButtonSize::Default);
    let c = button_class(ButtonVariant::Default, ButtonSize::Sm, "w-full");
    assert!(c.ends_with(" bg-primary text-primary-foreground shadow hover:bg-primary/90 h-8 rounded-md px-3 text-xs w-full"));
    assert!(c.starts_with("inline-flex "));
    assert_eq!(button_type(None), "button");
    assert_eq!(button_type(Some("submit".into())), "submit");
    assert_eq!(with_class("p-6", "x"), "p-6 x");
}

#[test]
fn form_decisions() {
    match form_submission(None, "n".into(), String::new()) {
        Submission::Create(r) => assert_eq!((r.name.as_str(), r.description), ("n", None)),
        other => panic!("unexpected {:?}", other),
    }
    let editing = Item { id: 4, name: "a".into(), description: Some("b".into()), created_at: "t".into() };
    match form_submission(Some(&editing), "n2".into(), "d2".into()) {
        Submission::Update { id, request } => {
            assert_eq!((id, request.name.as_deref(), request.description.as_deref()), (4, Some("n2"), Some("d2")))
        }
        other => panic!("unexpected {:?}", other),
    }
    assert_eq!(form_fields(Some(&editing)), ("a".to_string(), "b".to_string()));
    assert_eq!(form_fields(Some(&item(1))), ("item 1".to_string(), String::new()));
    assert_eq!(form_fields(None), (String::new(), String::new()));
    assert_eq!(form_title(true), "Edit Item");
    assert_eq!(form_title(false), "Create Item");
    assert_eq!(submit_label(true, true), "Saving...");
    assert_eq!(submit_label(false, true), "Update");
    assert_eq!(submit_label(false, false), "Create");
}

#[test]
fn list_decisions() {
    let items = vec![item(1), item(2), item(3), item(2)];
    let left = remove_item(items, 2);
    assert_eq!(left.iter().map(|i| i.id).collect::<Vec<_>>(), vec![1, 3]);
    assert_eq!(remove_item(vec![item(1)], 9).len(), 1);
    assert_eq!(description_text(&None), "-");
    assert_eq!(description_text(&Some("d".into())), "d");
}

#[test]
fn form_and_page_reactions() {
    let ok = after_submit::<u8>(Ok(1));
    assert!(ok.clear_fields && ok.stop_editing && ok.notify_success && !ok.submitting && ok.error.is_none());
    let failed = after_submit::<u8>(Err("boom".into()));
    assert!(!failed.clear_fields && !failed.stop_editing && !failed.notify_success && !failed.submitting);
    assert_eq!(failed.error.as_deref(), Some("boom"));
    let fetched = after_fetch::<Vec<u8>>(Ok(vec![1, 2]));
    assert_eq!((fetched.items, fetched.error, fetched.loading), (Some(vec![1, 2]), None, false));
    let fetched = after_fetch::<Vec<u8>>(Err("down".into()));
    assert_eq!((fetched.items, fetched.error.as_deref(), fetched.loading), (None, Some("down"), false));
    assert!(matches!(items_panel(true, Some("e".into())), ItemsPanel::Loading));
    assert!(matches!(items_panel(false, Some("e".into())), ItemsPanel::Failure(m) if m == "e"));
    assert!(matches!(items_panel(false, None), ItemsPanel::List));
}
