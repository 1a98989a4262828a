//! The SQL that the item store runs: the statements for each operation, the
//! whitelist of sortable columns, and how an update is merged with the stored item.

use vstd::prelude::*;
use vstd::string::*;

use crate::domain::{opt_str_view, CreateItemInput, Item, QueryOptions, UpdateItemInput};
use crate::errors::AppError;
use crate::text::{i64_to_string, signed_decimal, str_equal};
use crate::types::SortOrder;

verus! {

/// A value bound to a statement parameter.
#[derive(Debug)]
pub enum SqlValue {
    Text(String),
    Integer(i64),
    Null,
}

/// The abstract content of a [`SqlValue`].
pub enum SqlValueView {
    Text(Seq<char>),
    Integer(i64),
    Null,
}

impl View for SqlValue {
    type V = SqlValueView;

    open spec fn view(&self) -> SqlValueView {
        match self {
            SqlValue::Text(s) => SqlValueView::Text(s@),
            SqlValue::Integer(i) => SqlValueView::Integer(*i),
            SqlValue::Null => SqlValueView::Null,
        }
    }
}

/// The parameter value of an optional text: the text, or SQL `NULL`.
pub open spec fn opt_text_value(o: Option<Seq<char>>) -> SqlValueView {
    match o {
        Some(s) => SqlValueView::Text(s),
        None => SqlValueView::Null,
    }
}

fn opt_text(o: Option<String>) -> (res: SqlValue)
    ensures
        res@ == opt_text_value(opt_str_view(o)),
{
    match o {
        Some(s) => SqlValue::Text(s),
        None => SqlValue::Null,
    }
}

/// A statement with its parameter values, `?1` being the first.
#[derive(Debug)]
pub struct SqlStatement {
    pub sql: String,
    pub bindings: Vec<SqlValue>,
}

/// The abstract content of a list of parameter values.
pub open spec fn bindings_view(b: Seq<SqlValue>) -> Seq<SqlValueView> {
    b.map_values(|v: SqlValue| v@)
}

/// The columns a listing may be sorted by.
pub open spec fn is_sortable_column(f: Seq<char>) -> bool {
    f == "id"@ || f == "name"@ || f == "created_at"@
}

/// The column a listing is sorted by: the requested one when it is sortable,
/// `created_at` otherwise.
pub open spec fn sort_column(f: Seq<char>) -> Seq<char> {
    if is_sortable_column(f) {
        f
    } else {
        "created_at"@
    }
}

/// The SQL keyword of a sort direction.
pub open spec fn sort_keyword(o: SortOrder) -> Seq<char> {
    match o {
        SortOrder::Asc => "ASC"@,
        SortOrder::Desc => "DESC"@,
    }
}

/// The `LIKE` pattern that matches text containing `s`.
pub open spec fn contains_pattern(s: Seq<char>) -> Seq<char> {
    "%"@ + s + "%"@
}

/// The query that lists one page of items.
pub open spec fn list_sql(search: Option<Seq<char>>, sort_by: Seq<char>, order: SortOrder) -> Seq<char> {
    match search {
        Some(_) => "SELECT * FROM items WHERE name LIKE ?1 OR description LIKE ?1 ORDER BY "@
            + sort_column(sort_by) + " "@ + sort_keyword(order) + " LIMIT ?2 OFFSET ?3"@,
        None => "SELECT * FROM items ORDER BY "@ + sort_column(sort_by) + " "@ + sort_keyword(order)
            + " LIMIT ?1 OFFSET ?2"@,
    }
}

/// The query that counts the items a listing matches.
pub open spec fn count_sql(search: Option<Seq<char>>) -> Seq<char> {
    match search {
        Some(_) => "SELECT COUNT(*) as count FROM items WHERE name LIKE ?1 OR description LIKE ?1"@,
        None => "SELECT COUNT(*) as count FROM items"@,
    }
}

/// The message of the error reported when an update finds no item.
pub open spec fn missing_item_message(id: i64) -> Seq<char> {
    "Item "@ + signed_decimal(id as int) + " not found"@
}

/// The name an update stores: the given one, or else the current one.
pub open spec fn merged_name(current: Seq<char>, given: Option<Seq<char>>) -> Seq<char> {
    match given {
        Some(n) => n,
        None => current,
    }
}

/// The description an update stores: the given one, or else the current one.
pub open spec fn merged_description(
    current: Option<Seq<char>>,
    given: Option<Seq<char>>,
) -> Option<Seq<char>> {
    match given {
        Some(d) => Some(d),
        None => current,
    }
}

/// The item store backed by an SQL database handle of type `D`.
pub struct D1ItemRepository<D> {
    db: D,
}

impl<D> D1ItemRepository<D> {
    /// The database handle this store runs its statements on.
    pub closed spec fn spec_db(&self) -> D {
        self.db
    }

    /// A store over `db`.
    pub fn new(db: D) -> (res: Self)
        ensures
            res.spec_db() == db,
    {
        D1ItemRepository { db }
    }

    /// The database handle.
    pub fn db(&self) -> (res: &D)
        ensures
            *res == self.spec_db(),
    {
        &self.db
    }

    /// The requested sort column when it is one of `id`, `name` and `created_at`,
    /// and `created_at` otherwise, so that no other text reaches the `ORDER BY` clause.
    pub fn validate_sort_field(field: &str) -> (res: &str)
        ensures
            res@ == sort_column(field@),
            is_sortable_column(res@),
    {
        if str_equal(field, "id") || str_equal(field, "name") || str_equal(field, "created_at") {
            field
        } else {
            "created_at"
        }
    }

    /// The statement that inserts a new item and returns it.
    pub fn insert_statement(input: CreateItemInput) -> (res: SqlStatement)
        ensures
            res.sql@ == "INSERT INTO items (name, description) VALUES (?1, ?2) RETURNING *"@,
            bindings_view(res.bindings@) == seq![
                SqlValueView::Text(input.name@),
                opt_text_value(opt_str_view(input.description)),
            ],
    {
        let mut bindings: Vec<SqlValue> = Vec::new();
        bindings.push(SqlValue::Text(input.name));
        bindings.push(opt_text(input.description));
        let res = SqlStatement {
            sql: String::from_str("INSERT INTO items (name, description) VALUES (?1, ?2) RETURNING *"),
            bindings,
        };
        assert(bindings_view(res.bindings@) =~= seq![
            SqlValueView::Text(input.name@),
            opt_text_value(opt_str_view(input.description)),
        ]);
        res
    }

    /// The statement that reads the item with id `id`.
    pub fn find_by_id_statement(id: i64) -> (res: SqlStatement)
        ensures
            res.sql@ == "SELECT * FROM items WHERE id = ?1"@,
            bindings_view(res.bindings@) == seq![SqlValueView::Integer(id)],
    {
        let mut bindings: Vec<SqlValue> = Vec::new();
        bindings.push(SqlValue::Integer(id));
        let res = SqlStatement { sql: String::from_str("SELECT * FROM items WHERE id = ?1"), bindings };
        assert(bindings_view(res.bindings@) =~= seq![SqlValueView::Integer(id)]);
        res
    }

    /// The statement that counts the items whose name or description contains
    /// `search`, or all items when there is no search term.
    pub fn count_statement(search: Option<&str>) -> (res: SqlStatement)
        ensures
            res.sql@ == count_sql(match search { Some(s) => Some(s@), None => None }),
            bindings_view(res.bindings@) == match search {
                Some(s) => seq![SqlValueView::Text(contains_pattern(s@))],
                None => Seq::<SqlValueView>::empty(),
            },
    {
        let mut bindings: Vec<SqlValue> = Vec::new();
        match search {
            Some(s) => {
                let pattern = String::from_str("%").concat(s).concat("%");
                bindings.push(SqlValue::Text(pattern));
                let res = SqlStatement {
                    sql: String::from_str(
                        "SELECT COUNT(*) as count FROM items WHERE name LIKE ?1 OR description LIKE ?1",
                    ),
                    bindings,
                };
                assert(bindings_view(res.bindings@) =~= seq![SqlValueView::Text(contains_pattern(s@))]);
                res
            },
            None => {
                let res = SqlStatement { sql: String::from_str("SELECT COUNT(*) as count FROM items"), bindings };
                assert(bindings_view(res.bindings@) =~= Seq::<SqlValueView>::empty());
                res
            },
        }
    }

    /// The statement that reads one page of a listing: filtered by the search term
    /// when there is one, sorted by a whitelisted column, limited and offset.
    pub fn list_statement(options: &QueryOptions) -> (res: SqlStatement)
        ensures
            res.sql@ == list_sql(options@.search, options@.sort_by, options@.sort_order),
            bindings_view(res.bindings@) == match options@.search {
                Some(s) => seq![
                    SqlValueView::Text(contains_pattern(s)),
                    SqlValueView::Integer(options.limit as i64),
                    SqlValueView::Integer(options.offset as i64),
                ],
                None => seq![
                    SqlValueView::Integer(options.limit as i64),
                    SqlValueView::Integer(options.offset as i64),
                ],
            },
    {
        let field = Self::validate_sort_field(options.sort_by.as_str());
        let dir = match options.sort_order {
            SortOrder::Asc => "ASC",
            SortOrder::Desc => "DESC",
        };
        let mut bindings: Vec<SqlValue> = Vec::new();
        let mut sql = match &options.search {
            Some(s) => {
                let pattern = String::from_str("%").concat(s.as_str()).concat("%");
                bindings.push(SqlValue::Text(pattern));
                String::from_str(
                    "SELECT * FROM items WHERE name LIKE ?1 OR description LIKE ?1 ORDER BY ",
                )
            },
            None => String::from_str("SELECT * FROM items ORDER BY "),
        };
        sql.append(field);
        sql.append(" ");
        sql.append(dir);
        match &options.search {
            Some(_) => sql.append(" LIMIT ?2 OFFSET ?3"),
            None => sql.append(" LIMIT ?1 OFFSET ?2"),
        }
        bindings.push(SqlValue::Integer(options.limit as i64));
        bindings.push(SqlValue::Integer(options.offset as i64));
        let res = SqlStatement { sql, bindings };
        proof {
            match options@.search {
                Some(s) => {
                    assert(bindings_view(res.bindings@) =~= seq![
                        SqlValueView::Text(contains_pattern(s)),
                        SqlValueView::Integer(options.limit as i64),
                        SqlValueView::Integer(options.offset as i64),
                    ]);
                },
                None => {
                    assert(bindings_view(res.bindings@) =~= seq![
                        SqlValueView::Integer(options.limit as i64),
                        SqlValueView::Integer(options.offset as i64),
                    ]);
                },
            }
        }
        res
    }

    /// The name and description an update stores: each field of the input when it
    /// is given, the current value otherwise.
    pub fn merge_update(current: Item, input: UpdateItemInput) -> (res: (String, Option<String>))
        ensures
            res.0@ == merged_name(current.name@, opt_str_view(input.name)),
            opt_str_view(res.1) == merged_description(
                opt_str_view(current.description),
                opt_str_view(input.description),
            ),
    {
        let name = match input.name {
            Some(n) => n,
            None => current.name,
        };
        let description = match input.description {
            Some(d) => Some(d),
            None => current.description,
        };
        (name, description)
    }

    /// The statement that stores a new name and description for item `id` and
    /// returns the stored item.
    pub fn update_statement(id: i64, name: String, description: Option<String>) -> (res: SqlStatement)
        ensures
            res.sql@ == "UPDATE items SET name = ?1, description = ?2 WHERE id = ?3 RETURNING *"@,
            bindings_view(res.bindings@) == seq![
                SqlValueView::Text(name@),
                opt_text_value(opt_str_view(description)),
                SqlValueView::Integer(id),
            ],
    {
        let ghost n = name@;
        let ghost d = opt_str_view(description);
        let mut bindings: Vec<SqlValue> = Vec::new();
        bindings.push(SqlValue::Text(name));
        bindings.push(opt_text(description));
        bindings.push(SqlValue::Integer(id));
        let res = SqlStatement {
            sql: String::from_str("UPDATE items SET name = ?1, description = ?2 WHERE id = ?3 RETURNING *"),
            bindings,
        };
        assert(bindings_view(res.bindings@) =~= seq![
            SqlValueView::Text(n),
            opt_text_value(d),
            SqlValueView::Integer(id),
        ]);
        res
    }

    /// What an update does once the current item has been read: the update
    /// statement over the merged fields, or a not-found error when there is no item.
    pub fn update_plan(id: i64, current: Option<Item>, input: UpdateItemInput) -> (res: Result<
        SqlStatement,
        AppError,
    >)
        ensures
            match current {
                None => res matches Err(e) && e@ == crate::errors::AppErrorView::NotFound(
                    missing_item_message(id),
                ),
                Some(cur) => res matches Ok(st) && st.sql@
                    == "UPDATE items SET name = ?1, description = ?2 WHERE id = ?3 RETURNING *"@
                    && bindings_view(st.bindings@) == seq![
                    SqlValueView::Text(merged_name(cur.name@, opt_str_view(input.name))),
                    opt_text_value(
                        merged_description(
                            opt_str_view(cur.description),
                            opt_str_view(input.description),
                        ),
                    ),
                    SqlValueView::Integer(id),
                ],
            },
    {
        match current {
            None => {
                let msg = String::from_str("Item ").concat(i64_to_string(id).as_str()).concat(
                    " not found",
                );
                Err(AppError::NotFound(msg))
            },
            Some(cur) => {
                let (name, description) = Self::merge_update(cur, input);
                Ok(Self::update_statement(id, name, description))
            },
        }
    }

    /// The statement that deletes the item with id `id`.
    pub fn delete_statement(id: i64) -> (res: SqlStatement)
        ensures
            res.sql@ == "DELETE FROM items WHERE id = ?1"@,
            bindings_view(res.bindings@) == seq![SqlValueView::Integer(id)],
    {
        let mut bindings: Vec<SqlValue> = Vec::new();
        bindings.push(SqlValue::Integer(id));
        let res = SqlStatement { sql: String::from_str("DELETE FROM items WHERE id = ?1"), bindings };
        assert(bindings_view(res.bindings@) =~= seq![SqlValueView::Integer(id)]);
        res
    }

    /// The item count read from the count query's row: its `count` column taken
    /// as unsigned, or 0 when there is no row.
    pub fn count_from_row(count: Option<i64>) -> (res: u64)
        ensures
            res == match count {
                Some(c) => c as u64,
                None => 0u64,
            },
    {
        match count {
            Some(c) => c as u64,
            None => 0,
        }
    }

    /// The item returned by an insert, or the error reported when it returned none.
    pub fn created_item(row: Option<Item>) -> (res: Result<Item, AppError>)
        ensures
            match row {
                Some(item) => res matches Ok(r) && r == item,
                None => res matches Err(e) && e@ == crate::errors::AppErrorView::InternalError(
                    "Failed to create item"@,
                ),
            },
    {
        match row {
            Some(item) => Ok(item),
            None => Err(AppError::InternalError(String::from_str("Failed to create item"))),
        }
    }

    /// The item returned by an update, or the error reported when it returned none.
    pub fn updated_item(row: Option<Item>) -> (res: Result<Item, AppError>)
        ensures
            match row {
                Some(item) => res matches Ok(r) && r == item,
                None => res matches Err(e) && e@ == crate::errors::AppErrorView::InternalError(
                    "Failed to update item"@,
                ),
            },
    {
        match row {
            Some(item) => Ok(item),
            None => Err(AppError::InternalError(String::from_str("Failed to update item"))),
        }
    }
}

/// An update with no field given stores the current name and description, and
/// applying the same update a second time changes nothing more.
pub proof fn lemma_merge_update_laws(
    name: Seq<char>,
    description: Option<Seq<char>>,
    given_name: Option<Seq<char>>,
    given_description: Option<Seq<char>>,
)
    ensures
        merged_name(name, None) == name,
        merged_description(description, None) == description,
        merged_name(merged_name(name, given_name), given_name) == merged_name(name, given_name),
        merged_description(merged_description(description, given_description), given_description)
            == merged_description(description, given_description),
{
}

/// Sorting is idempotent on columns: a column that was already chosen is kept,
/// and whatever is requested, the chosen column is sortable.
pub proof fn lemma_sort_column_idempotent(f: Seq<char>)
    ensures
        is_sortable_column(sort_column(f)),
        sort_column(sort_column(f)) == sort_column(f),
{
}

} // verus!
