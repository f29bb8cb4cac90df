//! Parameterised Postgres statements: the values a statement binds, and the
//! text that sea_query renders for the statement shapes the store uses.

use vstd::prelude::*;

use crate::decimal::decimal;
use crate::schema::unquoted_iden;

use chrono::{NaiveDateTime, Utc};
use sea_query::{Alias, Expr, PostgresQueryBuilder, Query, SimpleExpr, Value};
use uuid::Uuid;

verus! {

/// A date and time without time zone, here always read as UTC.
#[verifier::external_type_specification]
#[verifier::external_body]
pub struct ExNaiveDateTime(NaiveDateTime);

/// A value bound to a placeholder of a statement.
pub enum SqlValue {
    /// A `text` value.
    Text(String),
    /// A `uuid` value, by its 128 bits (most significant byte first).
    Uuid(u128),
    /// A `timestamptz` value: this UTC date and time.
    Timestamp(NaiveDateTime),
}

/// What a bound value stands for.
pub enum SqlValueView {
    Text(Seq<char>),
    Uuid(u128),
    Timestamp(NaiveDateTime),
}

impl View for SqlValue {
    type V = SqlValueView;

    open spec fn view(&self) -> SqlValueView {
        match self {
            SqlValue::Text(s) => SqlValueView::Text(s@),
            SqlValue::Uuid(u) => SqlValueView::Uuid(*u),
            SqlValue::Timestamp(t) => SqlValueView::Timestamp(*t),
        }
    }
}

/// A statement ready to run: its text and, in placeholder order, the values
/// bound to `$1`, `$2`, ...
pub struct SqlQuery {
    pub sql: String,
    pub values: Vec<SqlValue>,
}

/// The views of a list of bound values.
pub open spec fn values_view(values: Seq<SqlValue>) -> Seq<SqlValueView> {
    values.map_values(|v: SqlValue| v@)
}

/// The texts of a list of identifiers.
pub open spec fn idens_view(idens: Seq<&str>) -> Seq<Seq<char>> {
    idens.map_values(|s: &str| s@)
}

/// Every identifier of the list needs no escaping.
pub open spec fn all_unquoted(idens: Seq<Seq<char>>) -> bool {
    forall|i: int| 0 <= i < idens.len() ==> unquoted_iden(#[trigger] idens[i])
}

/// An identifier in Postgres quotes.
pub open spec fn quoted(iden: Seq<char>) -> Seq<char> {
    seq!['"'] + iden + seq!['"']
}

/// Quoted identifiers separated by ", ".
pub open spec fn quoted_list(idens: Seq<Seq<char>>) -> Seq<char>
    decreases idens.len(),
{
    if idens.len() == 0 {
        Seq::empty()
    } else if idens.len() == 1 {
        quoted(idens[0])
    } else {
        quoted_list(idens.drop_last()) + seq![',', ' '] + quoted(idens.last())
    }
}

/// The numbered placeholder `$k`.
pub open spec fn placeholder(k: nat) -> Seq<char> {
    seq!['$'] + decimal(k)
}

/// The placeholders `$1, $2, ..., $n`.
pub open spec fn placeholders(n: nat) -> Seq<char>
    decreases n,
{
    if n == 0 {
        Seq::empty()
    } else if n == 1 {
        placeholder(1)
    } else {
        placeholders((n - 1) as nat) + seq![',', ' '] + placeholder(n)
    }
}

/// `SELECT "c1", ..., "cn" FROM "table" WHERE "filter" = $1`
pub open spec fn select_text(table: Seq<char>, columns: Seq<Seq<char>>, filter: Seq<char>) -> Seq<char> {
    "SELECT "@ + quoted_list(columns) + " FROM "@ + quoted(table) + " WHERE "@ + quoted(filter)
        + " = "@ + placeholder(1)
}

/// `INSERT INTO "table" ("c1", ..., "cn") VALUES ($1, ..., $n) RETURNING "r1", ..., "rm"`
pub open spec fn insert_text(table: Seq<char>, columns: Seq<Seq<char>>, returning: Seq<Seq<char>>) -> Seq<char> {
    "INSERT INTO "@ + quoted(table) + " ("@ + quoted_list(columns) + ") VALUES ("@
        + placeholders(columns.len()) + ") RETURNING "@ + quoted_list(returning)
}

/// `UPDATE "table" SET "column" = $1 WHERE "filter" = $2 RETURNING "r1", ..., "rm"`
pub open spec fn update_text(table: Seq<char>, column: Seq<char>, filter: Seq<char>, returning: Seq<Seq<char>>) -> Seq<char> {
    "UPDATE "@ + quoted(table) + " SET "@ + quoted(column) + " = "@ + placeholder(1) + " WHERE "@
        + quoted(filter) + " = "@ + placeholder(2) + " RETURNING "@ + quoted_list(returning)
}

/// Renders with sea_query's `Query::select()` (`from`, `columns`, one
/// `and_where` of `Expr::col(..).eq(..)`) and `build(PostgresQueryBuilder)`.
/// Trusted: the text is `select_text`; sea_query writes each value as a
/// numbered placeholder, so the text does not depend on the value's content.
#[verifier::external_body]
pub(crate) fn render_select(table: &str, columns: &Vec<&str>, filter_column: &str, filter: &SqlValue) -> (sql: String)
    requires
        unquoted_iden(table@),
        all_unquoted(idens_view(columns@)),
        unquoted_iden(filter_column@),
    ensures
        sql@ == select_text(table@, idens_view(columns@), filter_column@),
{
    let value = match filter {
        SqlValue::Text(s) => Value::from(s.clone()),
        SqlValue::Uuid(u) => Value::from(Uuid::from_u128(*u)),
        SqlValue::Timestamp(t) => Value::from(t.and_utc()),
    };
    let columns: Vec<Alias> = columns.iter().map(|c| Alias::new(*c)).collect();
    Query::select().from(Alias::new(table)).columns(columns)
        .and_where(Expr::col(Alias::new(filter_column)).eq(value)).build(PostgresQueryBuilder).0
}

/// Renders with sea_query's `Query::insert()` (`into_table`, `columns`, one
/// row by `values_panic`, `returning` of `Query::returning().columns(..)`) and
/// `build(PostgresQueryBuilder)`. Trusted: the text is `insert_text`; each
/// value becomes a numbered placeholder in column order, so the text does not
/// depend on the values' content. `values_panic` panics unless there are as
/// many values as columns, which `requires` rules out; with no column at all
/// sea_query writes no VALUES clause, which `requires` rules out too.
#[verifier::external_body]
pub(crate) fn render_insert(table: &str, columns: &Vec<&str>, values: &Vec<SqlValue>, returning: &Vec<&str>) -> (sql: String)
    requires
        unquoted_iden(table@),
        columns.len() > 0,
        values.len() == columns.len(),
        all_unquoted(idens_view(columns@)),
        all_unquoted(idens_view(returning@)),
    ensures
        sql@ == insert_text(table@, idens_view(columns@), idens_view(returning@)),
{
    let row: Vec<SimpleExpr> = values.iter().map(|v| match v {
        SqlValue::Text(s) => s.clone().into(),
        SqlValue::Uuid(u) => Uuid::from_u128(*u).into(),
        SqlValue::Timestamp(t) => t.and_utc().into(),
    }).collect();
    let columns: Vec<Alias> = columns.iter().map(|c| Alias::new(*c)).collect();
    let returning: Vec<Alias> = returning.iter().map(|c| Alias::new(*c)).collect();
    Query::insert().into_table(Alias::new(table)).columns(columns).values_panic(row)
        .returning(Query::returning().columns(returning)).build(PostgresQueryBuilder).0
}

/// Renders with sea_query's `Query::update()` (`table`, `values` of one
/// column, one `and_where` of `Expr::col(..).eq(..)`, `returning`) and
/// `build(PostgresQueryBuilder)`. Trusted: the text is `update_text`; the new
/// value is placeholder `$1` and the filter value `$2`, whatever their content.
#[verifier::external_body]
pub(crate) fn render_update(table: &str, column: &str, value: &SqlValue, filter_column: &str, filter: &SqlValue, returning: &Vec<&str>) -> (sql: String)
    requires
        unquoted_iden(table@),
        unquoted_iden(column@),
        unquoted_iden(filter_column@),
        all_unquoted(idens_view(returning@)),
    ensures
        sql@ == update_text(table@, column@, filter_column@, idens_view(returning@)),
{
    let [v, f] = [value, filter].map(|v| match v {
        SqlValue::Text(s) => Value::from(s.clone()),
        SqlValue::Uuid(u) => Value::from(Uuid::from_u128(*u)),
        SqlValue::Timestamp(t) => Value::from(t.and_utc()),
    });
    let returning: Vec<Alias> = returning.iter().map(|c| Alias::new(*c)).collect();
    Query::update().table(Alias::new(table)).values([(Alias::new(column), v.into())])
        .and_where(Expr::col(Alias::new(filter_column)).eq(f))
        .returning(Query::returning().columns(returning)).build(PostgresQueryBuilder).0
}

/// Calls `uuid::Uuid::new_v4` and takes its 128 bits (`as_u128`). Trusted: the
/// bits are random except that `new_v4` sets the version nibble to 4 and the
/// variant bits to `10` (it masks a random number with
/// `0xFFFFFFFFFFFF4FFFBFFFFFFFFFFFFFFF` and sets `0x40008000000000000000`).
#[verifier::external_body]
pub(crate) fn new_v4_uuid() -> (id: u128)
    ensures
        (id >> 76u128) & 0xfu128 == 4,
        (id >> 62u128) & 0x3u128 == 2,
{
    Uuid::new_v4().as_u128()
}

/// Calls `chrono::Utc::now` and keeps its UTC date and time (`naive_utc`).
/// Nothing is stated of the result: it is the clock's reading.
#[verifier::external_body]
pub(crate) fn utc_now() -> (now: NaiveDateTime)
{
    Utc::now().naive_utc()
}

} // verus!
