use worker_fullstack::assets::{asset_not_found, content_type_for, is_api_path, static_asset, static_content_unavailable};
use worker_fullstack::domain::{CreateItemInput, Item, QueryOptions, UpdateItemInput};
use worker_fullstack::errors::AppError;
use worker_fullstack::persistence::{D1ItemRepository, SqlStatement, SqlValue};
use worker_fullstack::types::SortOrder;

type Repo = D1ItemRepository<()>;

fn values(st: &SqlStatement) -> Vec<String> {
    st.bindings
        .iter()
        .map(|b| match b {
            SqlValue::Text(s) => format!("text:{}", s),
            SqlValue::Integer(i) => format!("int:{}", i),
            SqlValue::Null => "null".to_string(),
        })
        .collect()
}

#[test]
fn sort_field_whitelist() {
    assert_eq!(Repo::validate_sort_field("id"), "id");
    assert_eq!(Repo::validate_sort_field("name"), "name");
    assert_eq!(Repo::validate_sort_field("created_at"), "created_at");
    assert_eq!(Repo::validate_sort_field("name; DROP TABLE items"), "created_at");
    assert_eq!(Repo::validate_sort_field(""), "created_at");
}

#[test]
fn list_statements() {
    let o = QueryOptions::new(10, 20);
    let st = Repo::list_statement(&o);
    assert_eq!(st.sql, "SELECT * FROM items ORDER BY created_at DESC LIMIT ?1 OFFSET ?2");
    assert_eq!(values(&st), vec!["int:10", "int:20"]);
    let o = QueryOptions::new(5, 0).with_search(Some("foo".into())).with_sort("bogus", SortOrder::Asc);
    let st = Repo::list_statement(&o);
    assert_eq!(st.sql, "SELECT * FROM items WHERE name LIKE ?1 OR description LIKE ?1 ORDER BY created_at ASC LIMIT ?2 OFFSET ?3");
    assert_eq!(values(&st), vec!["text:%foo%", "int:5", "int:0"]);
    let o = QueryOptions::new(1, 1).with_sort("name", SortOrder::Asc);
    assert_eq!(Repo::list_statement(&o).sql, "SELECT * FROM items ORDER BY name ASC LIMIT ?1 OFFSET ?2");
}

#[test]
fn count_statements() {
    let st = Repo::count_statement(None);
    assert_eq!(st.sql, "SELECT COUNT(*) as count FROM items");
    assert!(st.bindings.is_empty());
    let st = Repo::count_statement(Some("ab"));
    assert_eq!(st.sql, "SELECT COUNT(*) as count FROM items WHERE name LIKE ?1 OR description LIKE ?1");
    assert_eq!(values(&st), vec!["text:%ab%"]);
    assert_eq!(Repo::count_from_row(Some(7)), 7);
    assert_eq!(Repo::count_from_row(None), 0);
    assert_eq!(Repo::count_from_row(Some(-1)), u64::MAX);
}

#[test]
fn crud_statements() {
    let st = Repo::insert_statement(CreateItemInput { name: "n".into(), description: None });
    assert_eq!(st.sql, "INSERT INTO items (name, description) VALUES (?1, ?2) RETURNING *");
    assert_eq!(values(&st), vec!["text:n", "null"]);
    let st = Repo::find_by_id_statement(4);
    assert_eq!((st.sql.as_str(), values(&st)), ("SELECT * FROM items WHERE id = ?1", vec!["int:4".to_string()]));
    let st = Repo::delete_statement(4);
    assert_eq!((st.sql.as_str(), values(&st)), ("DELETE FROM items WHERE id = ?1", vec!["int:4".to_string()]));
}

#[test]
fn update_merges_with_current_item() {
    let current = Item { id: 2, name: "old".into(), description: Some("desc".into()), created_at: "t".into() };
    let st = Repo::update_plan(2, Some(current.clone()), UpdateItemInput { name: Some("new".into()), description: None }).unwrap();
    assert_eq!(st.sql, "UPDATE items SET name = ?1, description = ?2 WHERE id = ?3 RETURNING *");
    assert_eq!(values(&st), vec!["text:new", "text:desc", "int:2"]);
    let st = Repo::update_plan(2, Some(current.clone()), UpdateItemInput { name: None, description: None }).unwrap();
    assert_eq!(values(&st), vec!["text:old", "text:desc", "int:2"]);
    match Repo::update_plan(9, None, UpdateItemInput { name: None, description: None }) {
        Err(AppError::NotFound(m)) => assert_eq!(m, "Item 9 not found"),
        other => panic!("unexpected {:?}", other),
    }
    let (n, d) = Repo::merge_update(current, UpdateItemInput { name: None, description: Some("d2".into()) });
    assert_eq!((n.as_str(), d.as_deref()), ("old", Some("d2")));
}

#[test]
fn returned_rows() {
    assert!(matches!(Repo::created_item(None), Err(AppError::InternalError(m)) if m == "Failed to create item"));
    assert!(matches!(Repo::updated_item(None), Err(AppError::InternalError(m)) if m == "Failed to update item"));
    let it = Item { id: 1, name: "a".into(), description: None, created_at: "t".into() };
    assert_eq!(Repo::created_item(Some(it)).unwrap().id, 1);
    let repo = Repo::new(());
    assert_eq!(*repo.db(), ());
}

#[test]
fn static_assets() {
    assert!(is_api_path("/api/items"));
    assert!(!is_api_path("/apix"));
    let a = static_asset("/");
    assert_eq!((a.key.as_str(), a.content_type.as_str(), a.binary), ("/index.html", "text/html", false));
    let a = static_asset("/pkg/app_bg.wasm");
    assert_eq!((a.content_type.as_str(), a.binary), ("application/wasm", true));
    assert_eq!(content_type_for("/app.js"), "application/javascript");
    assert_eq!(content_type_for("/style.css"), "text/css");
    assert_eq!(content_type_for("/favicon.ico"), "application/octet-stream");
    let nf = asset_not_found();
    assert_eq!((nf.status, nf.body.as_str()), (404, "Not Found"));
    assert_eq!(static_content_unavailable().status, 500);
}

#[test]
fn sort_field_choice_is_stable() {
    for f in ["id", "name", "created_at", "price", "NAME"] {
        let once = Repo::validate_sort_field(f);
        assert_eq!(Repo::validate_sort_field(once), once);
        assert!(["id", "name", "created_at"].contains(&once));
    }
}
