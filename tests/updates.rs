use archive_viewer::payload::{
    update_category_statements, UpdateAuthorPayload, UpdateCategoryPayload, UpdateCollectionPayload,
    UpdateFileMetaPayload, UpdatePlatformPayload, UpdatePostPayload, UpdateTagPayload,
};
use archive_viewer::sql::SqlValue;
use archive_viewer::transaction::{TxStep, UpdateSession};
use archive_viewer::update::UpdateError;
use archive_viewer::wire::{decode_id, decode_text, Patch, WireValue};

fn empty_post() -> UpdatePostPayload {
    UpdatePostPayload {
        title: None,
        source: None,
        content: None,
        thumb: None,
        comments: None,
        updated: None,
        published: None,
        platform: None,
        authors: None,
        collections: None,
        tags: None,
    }
}

fn tag(name: Option<&str>, platform: Option<WireValue>) -> UpdateTagPayload {
    UpdateTagPayload { name: name.map(|s| s.to_string()), platform }
}

#[test]
fn empty_payload_is_refused() {
    let r = update_category_statements(&empty_post(), 1);
    assert!(matches!(r, Err(UpdateError::NothingToUpdate)));
    let a = UpdateAuthorPayload { name: None, thumb: None, updated: None, aliases: Some(vec!["x".to_string()]) };
    assert!(matches!(update_category_statements(&a, 1), Err(UpdateError::NothingToUpdate)));
}

#[test]
fn only_present_fields_are_assigned() {
    let p = UpdatePlatformPayload { name: Some("pixiv".to_string()) };
    let s = update_category_statements(&p, 4).unwrap();
    assert_eq!(s.len(), 1);
    assert_eq!(s[0].sql, "UPDATE platforms SET name = ? WHERE id = ?");
    assert_eq!(s[0].params, vec![SqlValue::Text("pixiv".to_string()), SqlValue::Int(4)]);
}

#[test]
fn touching_one_column_leaves_the_other() {
    let c = UpdateCollectionPayload { id: None, name: Some("five".to_string()), source: None, thumb: None };
    let ctx = c.update();
    assert_eq!(ctx.content.len(), 1);
    assert_eq!(ctx.content[0].column, "name");
    let s = update_category_statements(&c, 2).unwrap();
    assert_eq!(s[0].sql, "UPDATE collections SET name = ? WHERE id = ?");
}

#[test]
fn clearable_reference_three_ways() {
    assert!(tag(Some("a"), None).update().content.iter().all(|a| a.column != "platform"));
    let cleared = tag(None, Some(WireValue::Null)).update();
    assert_eq!(cleared.content.len(), 1);
    assert_eq!(cleared.content[0].column, "platform");
    assert_eq!(cleared.content[0].value, SqlValue::Null);
    let set = tag(None, Some(WireValue::Number(Some(12)))).update();
    assert_eq!(set.content[0].value, SqlValue::Int(12));
    let other = tag(None, Some(WireValue::Text("x".to_string()))).update();
    assert_eq!(other.content[0].value, SqlValue::Null);
}

#[test]
fn decoding_wire_values() {
    assert_eq!(decode_id(&None), Patch::Unset);
    assert_eq!(decode_id(&Some(WireValue::Null)), Patch::Clear);
    assert_eq!(decode_id(&Some(WireValue::Number(None))), Patch::Clear);
    assert_eq!(decode_id(&Some(WireValue::Number(Some(7)))), Patch::Value(7));
    assert_eq!(decode_id(&Some(WireValue::Number(Some((1u64 << 32) + 3)))), Patch::Value(3));
    assert_eq!(decode_text(&Some(WireValue::Text("s".to_string()))), Patch::Value("s".to_string()));
    assert_eq!(decode_text(&Some(WireValue::Null)), Patch::Clear);
    assert_eq!(decode_text(&None), Patch::Unset);
}

#[test]
fn cleared_source_becomes_empty_text() {
    let mut p = empty_post();
    p.source = Some(WireValue::Null);
    p.thumb = Some(WireValue::Number(Some(3)));
    let s = update_category_statements(&p, 8).unwrap();
    assert_eq!(s[0].sql, "UPDATE posts SET source = ?, thumb = ? WHERE id = ?");
    assert_eq!(s[0].params, vec![SqlValue::Text(String::new()), SqlValue::Int(3), SqlValue::Int(8)]);
}

#[test]
fn post_columns_and_relations() {
    let mut p = empty_post();
    p.title = Some("t".to_string());
    p.content = Some("[]".to_string());
    p.comments = Some("[]".to_string());
    p.updated = Some("2024-01-01T00:00:00+00:00".to_string());
    p.published = Some("2024-01-02T00:00:00+00:00".to_string());
    p.platform = Some(WireValue::Number(Some(2)));
    p.tags = Some(vec![2, 3, 4]);
    p.authors = Some(vec![]);
    let s = update_category_statements(&p, 5).unwrap();
    assert_eq!(s.len(), 5);
    assert_eq!(
        s[0].sql,
        "UPDATE posts SET title = ?, content = ?, comments = ?, updated = ?, published = ?, platform = ? WHERE id = ?"
    );
    assert_eq!(s[0].params.len(), 7);
    assert_eq!(s[1].sql, "DELETE FROM author_posts WHERE post = ? AND author NOT IN (SELECT value FROM json_each(?))");
    assert_eq!(s[1].params, vec![SqlValue::Int(5), SqlValue::Text("[]".to_string())]);
    assert_eq!(s[2].sql, "INSERT OR IGNORE INTO author_posts (post, author) SELECT ?, value FROM json_each(?)");
    assert_eq!(s[3].sql, "DELETE FROM post_tags WHERE post = ? AND tag NOT IN (SELECT value FROM json_each(?))");
    assert_eq!(s[3].params, vec![SqlValue::Int(5), SqlValue::Text("[2,3,4]".to_string())]);
    assert_eq!(s[4].sql, "INSERT OR IGNORE INTO post_tags (post, tag) SELECT ?, value FROM json_each(?)");
    assert_eq!(s[4].params, vec![SqlValue::Int(5), SqlValue::Text("[2,3,4]".to_string())]);
}

#[test]
fn relations_only_update_has_no_update_statement() {
    let mut p = empty_post();
    p.collections = Some(vec![10, 200]);
    let s = update_category_statements(&p, 1).unwrap();
    assert_eq!(s.len(), 2);
    assert_eq!(s[0].sql, "DELETE FROM collection_posts WHERE post = ? AND collection NOT IN (SELECT value FROM json_each(?))");
    assert_eq!(s[0].params[1], SqlValue::Text("[10,200]".to_string()));
}

#[test]
fn same_desired_set_gives_same_statements() {
    let mut p = empty_post();
    p.tags = Some(vec![2, 3, 4]);
    let first = update_category_statements(&p, 1).unwrap();
    let second = update_category_statements(&p, 1).unwrap();
    assert_eq!(first.len(), second.len());
    for (a, b) in first.iter().zip(second.iter()) {
        assert_eq!(a.sql, b.sql);
        assert_eq!(a.params, b.params);
    }
}

#[test]
fn file_meta_and_author_updates() {
    let f = UpdateFileMetaPayload { filename: None, post: Some(3), mime: Some("image/png".to_string()), extra: Some("{}".to_string()) };
    let s = update_category_statements(&f, 6).unwrap();
    assert_eq!(s[0].sql, "UPDATE file_metas SET post = ?, mime = ?, extra = ? WHERE id = ?");
    let a = UpdateAuthorPayload { name: Some("n".to_string()), thumb: Some(WireValue::Null), updated: None, aliases: None };
    let s = update_category_statements(&a, 6).unwrap();
    assert_eq!(s[0].sql, "UPDATE authors SET name = ?, thumb = ? WHERE id = ?");
    assert_eq!(s[0].params[1], SqlValue::Null);
    let c = UpdateCollectionPayload { id: Some(11), name: None, source: Some(WireValue::Text("u".to_string())), thumb: None };
    let s = update_category_statements(&c, 6).unwrap();
    assert_eq!(s[0].sql, "UPDATE collections SET id = ?, source = ? WHERE id = ?");
    assert_eq!(s[0].params, vec![SqlValue::Int(11), SqlValue::Text("u".to_string()), SqlValue::Int(6)]);
}

#[test]
fn transaction_commits_after_every_success() {
    let mut t = UpdateSession::new(2);
    assert_eq!(t.next_step(), TxStep::Execute(0));
    t.record(true);
    assert_eq!(t.next_step(), TxStep::Execute(1));
    t.record(true);
    assert_eq!(t.next_step(), TxStep::Commit);
}

#[test]
fn failed_relation_sync_rolls_back() {
    let mut t = UpdateSession::new(3);
    t.record(true);
    t.record(false);
    assert_eq!(t.next_step(), TxStep::Rollback);
    t.record(true);
    assert_eq!(t.next_step(), TxStep::Rollback);
}
