use vstd::prelude::*;
use vstd::string::StringExecFns;

use crate::pagination::Pagination;
use crate::sql::{SqlModel, SqlValue, Statement, StatementModel};

verus! {

/// The kinds of entity that the store holds, each in a table of its own.
#[derive(Debug, Clone, Copy, PartialEq, Eq, Structural)]
pub enum Category {
    Post,
    Author,
    Tag,
    Platform,
    Collection,
    FileMeta,
}

/// The filter of a listing: rows whose search column contains `search`; all rows
/// when it is empty.
#[derive(Debug, Clone)]
pub struct Filter {
    pub search: String,
}

impl Category {
    pub open spec fn spec_table_name(self) -> Seq<char> {
        match self {
            Category::Post => "posts"@,
            Category::Author => "authors"@,
            Category::Tag => "tags"@,
            Category::Platform => "platforms"@,
            Category::Collection => "collections"@,
            Category::FileMeta => "file_metas"@,
        }
    }

    pub open spec fn spec_search_column(self) -> Seq<char> {
        match self {
            Category::Post => "title"@,
            Category::FileMeta => "filename"@,
            _ => "name"@,
        }
    }

    pub fn table_name(&self) -> (r: &'static str)
        ensures
            r@ == self.spec_table_name(),
    {
        match self {
            Category::Post => "posts",
            Category::Author => "authors",
            Category::Tag => "tags",
            Category::Platform => "platforms",
            Category::Collection => "collections",
            Category::FileMeta => "file_metas",
        }
    }

    /// The column that a listing's search string is matched against.
    pub fn search_column(&self) -> (r: &'static str)
        ensures
            r@ == self.spec_search_column(),
    {
        match self {
            Category::Post => "title",
            Category::FileMeta => "filename",
            _ => "name",
        }
    }

    /// The query of one page of this kind's rows, newest first.
    pub fn list_query(&self, pagination: &Pagination, filter: &Filter) -> (r: Statement)
        ensures
            r@ == list_statement("*"@, self.spec_table_name(), self.spec_search_column(), *pagination, filter.search@),
    {
        list_statement_of("*", self.table_name(), self.search_column(), pagination, filter)
    }

    /// The query of the row with the given id.
    pub fn get_query(&self, id: u32) -> (r: Statement)
        ensures
            r@.sql == "SELECT * FROM "@ + self.spec_table_name() + " WHERE id = ?"@,
            r@.params == seq![SqlModel::Int(id as int)],
    {
        let mut sql = String::from_str("SELECT * FROM ");
        sql.append(self.table_name());
        sql.append(" WHERE id = ?");
        Statement { sql, params: vec![SqlValue::Int(id as i64)] }
    }

    /// The statement that removes the row with the given id. Relation rows that
    /// name it are left to the store's own rules.
    pub fn delete_query(&self, id: u32) -> (r: Statement)
        ensures
            r@.sql == "DELETE FROM "@ + self.spec_table_name() + " WHERE id = ?"@,
            r@.params == seq![SqlModel::Int(id as int)],
    {
        let mut sql = String::from_str("DELETE FROM ");
        sql.append(self.table_name());
        sql.append(" WHERE id = ?");
        Statement { sql, params: vec![SqlValue::Int(id as i64)] }
    }
}

/// The text of a listing query: `columns` of `table`, filtered on `search_column`
/// only when a search is given, newest first, one page.
pub open spec fn list_sql(columns: Seq<char>, table: Seq<char>, search_column: Seq<char>, searching: bool) -> Seq<char> {
    "SELECT "@ + columns + " FROM "@ + table
        + (if searching { " WHERE "@ + search_column + " LIKE concat('%', ?, '%')"@ } else { Seq::empty() })
        + " ORDER BY id DESC LIMIT ? OFFSET ?"@
}

/// Rows skipped before a page: the offset, held to the store's integer range (no
/// table holds that many rows, so past it every page is empty).
pub open spec fn store_offset(pagination: Pagination) -> int {
    if pagination.spec_offset() > i64::MAX { i64::MAX as int } else { pagination.spec_offset() }
}

/// A listing query with its parameters: the search string, when one is given, then
/// the page size and the number of rows skipped.
pub open spec fn list_statement(columns: Seq<char>, table: Seq<char>, search_column: Seq<char>, pagination: Pagination, search: Seq<char>) -> StatementModel {
    let searching = search.len() > 0;
    let page = seq![SqlModel::Int(pagination.spec_limit() as int), SqlModel::Int(store_offset(pagination))];
    StatementModel {
        sql: list_sql(columns, table, search_column, searching),
        params: if searching { seq![SqlModel::Text(search)] + page } else { page },
    }
}

fn list_statement_of(columns: &str, table: &str, search_column: &str, pagination: &Pagination, filter: &Filter) -> (r: Statement)
    ensures
        r@ == list_statement(columns@, table@, search_column@, *pagination, filter.search@),
{
    let searching = !filter.search.as_str().is_empty();
    let mut sql = String::from_str("SELECT ");
    sql.append(columns);
    sql.append(" FROM ");
    sql.append(table);
    let mut params: Vec<SqlValue> = Vec::new();
    if searching {
        sql.append(" WHERE ");
        sql.append(search_column);
        sql.append(" LIKE concat('%', ?, '%')");
        params.push(SqlValue::Text(filter.search.clone()));
    }
    sql.append(" ORDER BY id DESC LIMIT ? OFFSET ?");
    params.push(SqlValue::Int(pagination.limit() as i64));
    let offset = pagination.offset();
    let offset: i64 = if offset > i64::MAX as u64 { i64::MAX } else { offset as i64 };
    params.push(SqlValue::Int(offset));
    let r = Statement { sql, params };
    assert(r@.sql =~= list_sql(columns@, table@, search_column@, searching));
    assert(r@.params =~= list_statement(columns@, table@, search_column@, *pagination, filter.search@).params);
    r
}

/// The query of one page of post summaries (id, title, thumbnail, platform), newest
/// first, searched by title.
pub fn list_post_short_query(pagination: &Pagination, filter: &Filter) -> (r: Statement)
    ensures
        r@ == list_statement("id, title, thumb, platform"@, "posts"@, "title"@, *pagination, filter.search@),
{
    list_statement_of("id, title, thumb, platform", "posts", "title", pagination, filter)
}

/// A failure of the store: a query, a row's decoding, or the transaction.
#[derive(Debug, Clone, Copy, PartialEq, Eq, Structural)]
pub struct StoreError;

/// How a request failed, as its caller sees it.
#[derive(Debug, Clone, Copy, PartialEq, Eq, Structural)]
pub enum ApiError {
    /// The requested id is absent.
    NotFound,
    /// The request asks for nothing, or cannot be read.
    BadRequest,
    /// The store failed; nothing of the request was kept.
    StoreFailure,
}

impl ApiError {
    /// The HTTP status that reports this failure.
    pub fn status(&self) -> (r: u16)
        ensures
            *self == ApiError::NotFound ==> r == 404,
            *self == ApiError::BadRequest ==> r == 400,
            *self == ApiError::StoreFailure ==> r == 500,
    {
        match self {
            ApiError::NotFound => 404,
            ApiError::BadRequest => 400,
            ApiError::StoreFailure => 500,
        }
    }
}

/// The outcome of a delete, from what the store reported: success whether or not a
/// row was there to remove.
pub fn delete_outcome(removed: Result<usize, StoreError>) -> (r: Result<(), ApiError>)
    ensures
        removed is Ok <==> r is Ok,
        removed is Err ==> r == Err::<(), ApiError>(ApiError::StoreFailure),
{
    match removed {
        Ok(_) => Ok(()),
        Err(_) => Err(ApiError::StoreFailure),
    }
}

/// The outcome of a lookup by id: the row, or not found when the store has none.
pub fn get_outcome<T>(found: Result<Option<T>, StoreError>) -> (r: Result<T, ApiError>)
    ensures
        found matches Ok(Some(v)) ==> r == Ok::<T, ApiError>(v),
        found matches Ok(None) ==> r == Err::<T, ApiError>(ApiError::NotFound),
        found is Err ==> r == Err::<T, ApiError>(ApiError::StoreFailure),
{
    match found {
        Ok(Some(v)) => Ok(v),
        Ok(None) => Err(ApiError::NotFound),
        Err(_) => Err(ApiError::StoreFailure),
    }
}

} // verus!
