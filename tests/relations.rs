use archive_viewer::relation::{
    dedup_ids, EntityRefs, ListItemResponse, ListResponse, PostResponse, PostShortResponse, RelationQuery,
    RequireRelations, WithRelations,
};
use archive_viewer::sql::SqlValue;

fn short(id: u32, thumb: Option<u32>, platform: Option<u32>) -> PostShortResponse {
    PostShortResponse { id, title: format!("post {}", id), thumb, platform }
}

#[test]
fn dedup_keeps_first_occurrences() {
    assert_eq!(dedup_ids(&vec![3, 1, 3, 2, 1]), vec![3, 1, 2]);
    assert_eq!(dedup_ids(&vec![]), Vec::<u32>::new());
}

#[test]
fn shared_reference_is_asked_once() {
    let list = ListResponse { list: vec![short(1, Some(9), Some(7)), short(2, Some(9), Some(7)), short(3, None, Some(7))] };
    assert_eq!(list.platforms(), vec![7, 7, 7]);
    let q = RelationQuery::new(&list);
    assert_eq!(q.platform_ids, vec![7]);
    assert_eq!(q.file_meta_ids, vec![9]);
    let pq = q.platforms_query().unwrap();
    assert_eq!(pq.sql, "SELECT * FROM platforms WHERE id IN (SELECT value FROM json_each(?))");
    assert_eq!(pq.params, vec![SqlValue::Text("[7]".to_string())]);
    let fq = q.file_metas_query().unwrap();
    assert_eq!(fq.sql, "SELECT * FROM file_metas WHERE id IN (SELECT value FROM json_each(?))");
}

#[test]
fn no_reference_no_query() {
    let list = ListResponse { list: vec![ListItemResponse { id: 1, name: "a".to_string(), thumb: None }] };
    let q = RelationQuery::new(&list);
    assert!(q.platforms_query().is_none());
    assert!(q.file_metas_query().is_none());
}

#[test]
fn full_post_references() {
    let post = PostResponse {
        platform: Some(1),
        thumb: Some(50),
        files: vec![51, 52],
        tags: vec![EntityRefs { platform: Some(2), thumb: None }, EntityRefs { platform: None, thumb: None }],
        authors: vec![EntityRefs { platform: None, thumb: Some(53) }],
        collections: vec![EntityRefs { platform: None, thumb: Some(50) }],
    };
    assert_eq!(post.platforms(), vec![1, 2]);
    assert_eq!(post.file_metas(), vec![51, 52, 50, 53, 50]);
    let q = RelationQuery::new(&post);
    assert_eq!(q.file_meta_ids, vec![51, 52, 50, 53]);
    assert_eq!(q.file_metas_query().unwrap().params, vec![SqlValue::Text("[51,52,50,53]".to_string())]);
}

#[test]
fn missing_row_is_absent_from_bundle() {
    let list = ListResponse { list: vec![short(1, Some(4), Some(7)), short(2, Some(5), Some(8))] };
    let q = RelationQuery::new(&list);
    // the store has platform 7 and file 5 only; a stray row for 99 is ignored
    let w = WithRelations::new(list, &q, vec![(7, "seven"), (99, "stray")], vec![(5, "five")]);
    assert_eq!(w.platforms.len(), 1);
    assert_eq!(w.platforms.get(&7), Some(&"seven"));
    assert!(!w.platforms.contains_key(&8));
    assert!(!w.platforms.contains_key(&99));
    assert_eq!(w.file_metas.len(), 1);
    assert_eq!(w.file_metas.get(&5), Some(&"five"));
    assert_eq!(w.payload.list[0].platform, Some(7));
    assert_eq!(w.payload.list[1].platform, Some(8));
    assert_eq!(w.payload.list[1].thumb, Some(5));
}

#[test]
fn alias_references_its_platform() {
    let aliases = ListResponse { list: vec![EntityRefs { platform: Some(3), thumb: None }, EntityRefs { platform: Some(3), thumb: None }] };
    let q = RelationQuery::new(&aliases);
    assert_eq!(q.platform_ids, vec![3]);
    assert!(q.file_metas_query().is_none());
}
