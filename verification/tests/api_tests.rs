use worker_fullstack::application::{CreateItem, DeleteItem, GetItem, ListItems, UpdateItem};
use worker_fullstack::domain::{CreateItemInput, Item, PaginatedResult, QueryOptions, UpdateItemInput};
use worker_fullstack::dto::{CreateItemRequest, ItemResponse, UpdateItemRequest};
use worker_fullstack::errors::AppError;
use worker_fullstack::http::parse_id_param;
use worker_fullstack::types::{ListQueryParams, PaginationMeta, SingleResponse, SortOrder};
use worker_fullstack::ui_api::item_url;

fn item(id: i64, name: &str) -> Item {
    Item {
        id,
        name: name.to_string(),
        description: Some(format!("about {}", name)),
        created_at: "2024-01-01 00:00:00".to_string(),
    }
}

#[test]
fn error_status_and_display() {
    let e = AppError::NotFound("Item with id 3 not found".to_string());
    assert_eq!(e.status_code(), 404);
    assert_eq!(e.message(), "Item with id 3 not found");
    assert_eq!(e.to_string(), "Not Found: Item with id 3 not found");
    let e = AppError::BadRequest("bad".to_string());
    assert_eq!((e.status_code(), e.to_string()), (400, "Bad Request: bad".to_string()));
    let e = AppError::ValidationError("Name is required".to_string());
    assert_eq!((e.status_code(), e.to_string()), (400, "Validation Error: Name is required".to_string()));
    let e = AppError::InternalError("boom".to_string());
    assert_eq!((e.status_code(), e.to_string()), (500, "Internal Error: boom".to_string()));
}

#[test]
fn list_params_defaults() {
    let p = ListQueryParams::default();
    assert_eq!(p.page(), 1);
    assert_eq!(p.per_page(), 10);
    assert_eq!(p.offset(), 0);
    assert_eq!(p.search(), None);
    assert_eq!(p.sort_by(), "created_at");
    assert_eq!(p.sort_order(), SortOrder::Desc);
}

#[test]
fn list_params_clamping() {
    let p = ListQueryParams {
        page: Some(0),
        per_page: Some(500),
        search: Some(String::new()),
        sort_by: Some("name".to_string()),
        sort_order: Some(SortOrder::Asc),
    };
    assert_eq!(p.page(), 1);
    assert_eq!(p.per_page(), 100);
    assert_eq!(p.search(), None);
    assert_eq!(p.sort_by(), "name");
    assert_eq!(p.sort_order(), SortOrder::Asc);
    let q = ListQueryParams { page: Some(3), per_page: Some(0), search: Some("foo".to_string()), ..ListQueryParams::default() };
    assert_eq!(q.per_page(), 1);
    assert_eq!(q.offset(), 2);
    assert_eq!(q.search(), Some("foo"));
    let r = ListQueryParams { page: Some(4), per_page: Some(25), ..ListQueryParams::default() };
    assert_eq!(r.offset(), 75);
}

#[test]
fn pagination_meta_figures() {
    let m = PaginationMeta::new(1, 10, 0);
    assert_eq!((m.total_pages, m.has_next, m.has_prev), (1, false, false));
    let m = PaginationMeta::new(2, 10, 25);
    assert_eq!((m.total_pages, m.has_next, m.has_prev), (3, true, true));
    let m = PaginationMeta::new(3, 10, 30);
    assert_eq!((m.total_pages, m.has_next, m.has_prev), (3, false, true));
    let m = PaginationMeta::new(1, 0, 5);
    assert_eq!(m.total_pages, u32::MAX);
    let m = PaginationMeta::new(1, 1, u64::MAX);
    assert_eq!(m.total_pages, u32::MAX);
    // The same figures as the floating-point ceiling for ordinary sizes.
    for (total, per_page) in [(1u64, 1u32), (99, 10), (100, 10), (101, 10), (12345, 7)] {
        let expected = ((total as f64) / (per_page as f64)).ceil() as u32;
        assert_eq!(PaginationMeta::new(1, per_page, total).total_pages, expected);
    }
}

#[test]
fn page_within_total_on_values() {
    // 25 items at 10 a page: pages 1..=3 start before item 25, page 4 does not.
    for page in 1u32..=5 {
        let meta = PaginationMeta::new(page, 10, 25);
        let offset = ListQueryParams { page: Some(page), per_page: Some(10), ..ListQueryParams::default() }.offset();
        assert_eq!(page <= meta.total_pages, (offset as u64) < 25);
    }
}

#[test]
fn query_options_builders() {
    let o = QueryOptions::new(10, 20);
    assert_eq!((o.limit, o.offset, o.search.clone(), o.sort_by.clone(), o.sort_order), (10, 20, None, "created_at".to_string(), SortOrder::Desc));
    let o = o.with_search(Some("x".to_string()));
    assert_eq!(o.search.as_deref(), Some("x"));
    assert_eq!(o.sort_by, "created_at");
    let o = o.with_sort("name", SortOrder::Asc);
    assert_eq!((o.sort_by.as_str(), o.sort_order, o.search.as_deref(), o.limit), ("name", SortOrder::Asc, Some("x"), 10));
    let d = QueryOptions::default();
    assert_eq!((d.limit, d.offset, d.sort_by.as_str(), d.sort_order), (0, 0, "", SortOrder::Desc));
}

#[test]
fn search_and_sort_commute_on_values() {
    let a = QueryOptions::new(5, 0).with_search(Some("s".into())).with_sort("id", SortOrder::Asc);
    let b = QueryOptions::new(5, 0).with_sort("id", SortOrder::Asc).with_search(Some("s".into()));
    assert_eq!((a.search, a.sort_by, a.sort_order), (b.search, b.sort_by, b.sort_order));
}

#[test]
fn create_requires_a_name() {
    let uc = CreateItem::new(());
    match uc.check(CreateItemInput { name: String::new(), description: None }) {
        Err(AppError::ValidationError(m)) => assert_eq!(m, "Name is required"),
        other => panic!("unexpected {:?}", other),
    }
    let ok = uc.check(CreateItemInput { name: "n".into(), description: Some("d".into()) }).unwrap();
    assert_eq!((ok.name.as_str(), ok.description.as_deref()), ("n", Some("d")));
}

#[test]
fn get_item_outcomes() {
    let uc = GetItem::new(());
    assert_eq!(uc.finish(1, Ok(Some(item(1, "a")))).unwrap().name, "a");
    match uc.finish(-7, Ok(None)) {
        Err(AppError::NotFound(m)) => assert_eq!(m, "Item with id -7 not found"),
        other => panic!("unexpected {:?}", other),
    }
    match uc.finish(1, Err(AppError::InternalError("db".into()))) {
        Err(AppError::InternalError(m)) => assert_eq!(m, "db"),
        other => panic!("unexpected {:?}", other),
    }
}

#[test]
fn delete_and_update_only_touch_existing_items() {
    let del = DeleteItem::new(());
    assert_eq!(del.after_lookup(5, Ok(Some(item(5, "x")))).unwrap(), 5);
    match del.after_lookup(6, Ok(None)) {
        Err(AppError::NotFound(m)) => assert_eq!(m, "Item with id 6 not found"),
        other => panic!("unexpected {:?}", other),
    }
    let upd = UpdateItem::new(());
    let input = UpdateItemInput { name: Some("new".into()), description: None };
    let (id, inp) = upd.after_lookup(5, input, Ok(Some(item(5, "x")))).unwrap();
    assert_eq!((id, inp.name.as_deref()), (5, Some("new")));
    let input = UpdateItemInput { name: None, description: None };
    assert!(matches!(upd.after_lookup(9, input, Ok(None)), Err(AppError::NotFound(_))));
}

#[test]
fn list_use_case_options_and_response() {
    let uc = ListItems::new(());
    let params = ListQueryParams {
        page: Some(2),
        per_page: Some(2),
        search: Some("a".into()),
        sort_by: Some("name".into()),
        sort_order: Some(SortOrder::Asc),
    };
    let o = uc.query_options(&params);
    assert_eq!((o.limit, o.offset, o.search.as_deref(), o.sort_by.as_str(), o.sort_order), (2, 2, Some("a"), "name", SortOrder::Asc));
    let resp = uc.respond(&params, PaginatedResult { items: vec![item(3, "c"), item(4, "d")], total: 5 });
    assert_eq!(resp.data.len(), 2);
    assert_eq!((resp.data[0].id, resp.data[1].name.as_str()), (3, "d"));
    assert_eq!((resp.meta.page, resp.meta.per_page, resp.meta.total, resp.meta.total_pages, resp.meta.has_next, resp.meta.has_prev), (2, 2, 5, 3, true, true));
}

#[test]
fn dto_conversions_keep_fields() {
    let input: CreateItemInput = CreateItemRequest { name: "n".into(), description: None }.into();
    assert_eq!((input.name.as_str(), input.description), ("n", None));
    let input: UpdateItemInput = UpdateItemRequest { name: None, description: Some("d".into()) }.into();
    assert_eq!((input.name, input.description.as_deref()), (None, Some("d")));
    let r: ItemResponse = item(8, "h").into();
    assert_eq!((r.id, r.name.as_str(), r.description.as_deref(), r.created_at.as_str()), (8, "h", Some("about h"), "2024-01-01 00:00:00"));
}

#[test]
fn single_response_wraps() {
    let r = SingleResponse::new(3, "Item retrieved");
    assert_eq!((r.data, r.message.as_str()), (3, "Item retrieved"));
}

#[test]
fn id_parameter_parsing() {
    assert_eq!(parse_id_param(Some("42")).unwrap(), 42);
    assert_eq!(parse_id_param(Some("-3")).unwrap(), -3);
    match parse_id_param(Some("abc")) {
        Err(AppError::BadRequest(m)) => assert_eq!(m, "Invalid id parameter"),
        other => panic!("unexpected {:?}", other),
    }
    match parse_id_param(None) {
        Err(AppError::BadRequest(m)) => assert_eq!(m, "Missing id parameter"),
        other => panic!("unexpected {:?}", other),
    }
}

#[test]
fn item_url_id_reads_back() {
    for id in [1i64, 42, -7, i64::MAX, i64::MIN] {
        let url = item_url(id);
        let segment = url.rsplit('/').next().unwrap();
        assert_eq!(parse_id_param(Some(segment)).unwrap(), id);
    }
}
