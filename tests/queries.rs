use archive_viewer::category::{delete_outcome, get_outcome, list_post_short_query, ApiError, Category, Filter, StoreError};
use archive_viewer::pagination::Pagination;
use archive_viewer::sql::SqlValue;

fn page(limit: Option<u32>, page: Option<u32>) -> Pagination {
    Pagination { limit, page }
}

fn no_search() -> Filter {
    Filter { search: String::new() }
}

#[test]
fn pagination_defaults() {
    let p = page(None, None);
    assert_eq!(p.limit(), 20);
    assert_eq!(p.page(), 0);
    assert_eq!(p.offset(), 0);
    assert_eq!(p.params(), [(":limit", 20), (":offset", 0)]);
}

#[test]
fn pagination_params_multiply() {
    let p = page(Some(15), Some(3));
    assert_eq!(p.params(), [(":limit", 15), (":offset", 45)]);
    assert_eq!(p.offset(), 45);
}

#[test]
fn pagination_offset_does_not_overflow() {
    let p = page(Some(u32::MAX), Some(u32::MAX));
    assert_eq!(p.offset(), (u32::MAX as u64) * (u32::MAX as u64));
    let q = Category::Tag.list_query(&p, &no_search());
    assert_eq!(q.params[1], SqlValue::Int(i64::MAX));
}

#[test]
fn pages_of_forty_five_rows() {
    // 45 rows with ids 1..=45; a page is the window that LIMIT/OFFSET selects
    // from the rows ordered by descending id.
    let rows: Vec<i64> = (1..=45).rev().collect();
    let window = |p: &Pagination| {
        let q = Category::Post.list_query(p, &no_search());
        assert!(q.sql.contains("ORDER BY id DESC LIMIT ? OFFSET ?"));
        let (limit, offset) = match (&q.params[0], &q.params[1]) {
            (SqlValue::Int(l), SqlValue::Int(o)) => (*l as usize, *o as usize),
            _ => panic!("limit and offset are integers"),
        };
        rows.iter().skip(offset).take(limit).cloned().collect::<Vec<i64>>()
    };
    let first = window(&page(Some(20), Some(0)));
    assert_eq!(first.len(), 20);
    assert_eq!(first[0], 45);
    assert_eq!(first[19], 26);
    let third = window(&page(Some(20), Some(2)));
    assert_eq!(third, vec![5, 4, 3, 2, 1]);
}

#[test]
fn list_query_without_search() {
    let q = Category::Author.list_query(&page(None, None), &no_search());
    assert_eq!(q.sql, "SELECT * FROM authors ORDER BY id DESC LIMIT ? OFFSET ?");
    assert_eq!(q.params, vec![SqlValue::Int(20), SqlValue::Int(0)]);
}

#[test]
fn list_query_with_search() {
    let f = Filter { search: "Ali".to_string() };
    let q = Category::FileMeta.list_query(&page(Some(10), Some(1)), &f);
    assert_eq!(
        q.sql,
        "SELECT * FROM file_metas WHERE filename LIKE concat('%', ?, '%') ORDER BY id DESC LIMIT ? OFFSET ?"
    );
    assert_eq!(q.params, vec![SqlValue::Text("Ali".to_string()), SqlValue::Int(10), SqlValue::Int(10)]);
}

#[test]
fn post_summaries_search_titles() {
    let f = Filter { search: "cat".to_string() };
    let q = list_post_short_query(&page(None, None), &f);
    assert_eq!(
        q.sql,
        "SELECT id, title, thumb, platform FROM posts WHERE title LIKE concat('%', ?, '%') ORDER BY id DESC LIMIT ? OFFSET ?"
    );
    assert_eq!(q.params.len(), 3);
}

#[test]
fn table_and_search_columns() {
    assert_eq!(Category::Post.table_name(), "posts");
    assert_eq!(Category::Post.search_column(), "title");
    assert_eq!(Category::FileMeta.search_column(), "filename");
    assert_eq!(Category::Collection.table_name(), "collections");
    assert_eq!(Category::Platform.search_column(), "name");
}

#[test]
fn get_and_delete_queries() {
    let g = Category::Tag.get_query(7);
    assert_eq!(g.sql, "SELECT * FROM tags WHERE id = ?");
    assert_eq!(g.params, vec![SqlValue::Int(7)]);
    let d = Category::Platform.delete_query(9);
    assert_eq!(d.sql, "DELETE FROM platforms WHERE id = ?");
    assert_eq!(d.params, vec![SqlValue::Int(9)]);
}

#[test]
fn deleting_a_missing_id_succeeds() {
    assert_eq!(delete_outcome(Ok(0)), Ok(()));
    assert_eq!(delete_outcome(Ok(1)), Ok(()));
    assert_eq!(delete_outcome(Err(StoreError)), Err(ApiError::StoreFailure));
}

#[test]
fn get_outcomes() {
    assert_eq!(get_outcome(Ok(Some(3u32))), Ok(3));
    assert_eq!(get_outcome::<u32>(Ok(None)), Err(ApiError::NotFound));
    assert_eq!(get_outcome::<u32>(Err(StoreError)), Err(ApiError::StoreFailure));
    assert_eq!(ApiError::NotFound.status(), 404);
    assert_eq!(ApiError::BadRequest.status(), 400);
    assert_eq!(ApiError::StoreFailure.status(), 500);
}
