use vstd::prelude::*;

use crate::payload::{UpdateCategoryPayload, UpdateCollectionPayload, UpdateTagPayload};
use crate::sql::SqlModel;
use crate::update::{columns_of, ref_field, text_field};
use crate::wire::{spec_decode_id, WireValue};

verus! {

/// A stored row after the assignments of one `UPDATE`, in order.
pub open spec fn apply_assignments(row: Map<Seq<char>, SqlModel>, content: Seq<(Seq<char>, SqlModel)>) -> Map<Seq<char>, SqlModel>
    decreases content.len(),
{
    if content.len() == 0 {
        row
    } else {
        apply_assignments(row, content.drop_last()).insert(content.last().0, content.last().1)
    }
}

/// A column that an update does not assign keeps its value (or its absence).
pub proof fn lemma_absent_column_kept(row: Map<Seq<char>, SqlModel>, content: Seq<(Seq<char>, SqlModel)>, column: Seq<char>)
    requires
        !columns_of(content).contains(column),
    ensures
        apply_assignments(row, content).contains_key(column) == row.contains_key(column),
        row.contains_key(column) ==> apply_assignments(row, content)[column] == row[column],
    decreases content.len(),
{
    if content.len() > 0 {
        assert(columns_of(content)[content.len() - 1] == content.last().0);
        assert forall|i: int| 0 <= i < content.len() - 1 implies #[trigger] columns_of(content.drop_last())[i] == columns_of(content)[i] by {}
        if columns_of(content.drop_last()).contains(column) {
            let i = choose|i: int| 0 <= i < content.len() - 1 && columns_of(content.drop_last())[i] == column;
            assert(columns_of(content)[i] == column);
        }
        lemma_absent_column_kept(row, content.drop_last(), column);
    }
}

/// A column that an update assigns takes the value of its last assignment.
pub proof fn lemma_assigned_column_set(row: Map<Seq<char>, SqlModel>, content: Seq<(Seq<char>, SqlModel)>, i: int)
    requires
        0 <= i < content.len(),
        forall|j: int| i < j < content.len() ==> #[trigger] content[j].0 != content[i].0,
    ensures
        apply_assignments(row, content).contains_key(content[i].0),
        apply_assignments(row, content)[content[i].0] == content[i].1,
    decreases content.len(),
{
    if i < content.len() - 1 {
        assert forall|j: int| i < j < content.len() - 1 implies #[trigger] content.drop_last()[j].0 != content.drop_last()[i].0 by {
            assert(content[j].0 != content[i].0);
        }
        lemma_assigned_column_set(row, content.drop_last(), i);
        assert(content[content.len() - 1].0 != content[i].0);
    }
}

/// An update of a tag touches only the columns it names. Its platform: absent
/// leaves the column as it was, `null` clears it, an integer sets it; its name:
/// absent leaves it, present sets it.
pub proof fn lemma_tag_update(row: Map<Seq<char>, SqlModel>, payload: UpdateTagPayload)
    ensures
        ({
            let after = apply_assignments(row, payload.spec_update().content);
            &&& payload.platform is None ==> after.contains_key("platform"@) == row.contains_key("platform"@)
                && (row.contains_key("platform"@) ==> after["platform"@] == row["platform"@])
            &&& payload.platform == Some(WireValue::Null) ==> after.contains_key("platform"@) && after["platform"@] == SqlModel::Null
            &&& (forall|n: u64| payload.platform == Some(WireValue::Number(Some(n)))
                ==> after.contains_key("platform"@) && after["platform"@] == SqlModel::Int((n as u32) as int))
            &&& payload.name is None ==> after.contains_key("name"@) == row.contains_key("name"@)
                && (row.contains_key("name"@) ==> after["name"@] == row["name"@])
            &&& (forall|s: String| payload.name == Some(s)
                ==> after.contains_key("name"@) && after["name"@] == SqlModel::Text(s@))
            &&& forall|c: Seq<char>| c != "name"@ && c != "platform"@ ==> #[trigger] after.contains_key(c) == row.contains_key(c)
            &&& forall|c: Seq<char>| c != "name"@ && c != "platform"@ && row.contains_key(c) ==> #[trigger] after[c] == row[c]
        }),
{
    reveal_strlit("name");
    reveal_strlit("platform");
    let content = payload.spec_update().content;
    let platform = ref_field("platform"@, spec_decode_id(payload.platform));
    let name = text_field("name"@, payload.name);
    assert(content == name + platform);
    assert(platform.len() <= 1 && name.len() <= 1);
    assert(platform.len() == 1 ==> platform[0].0 == "platform"@);
    assert(name.len() == 1 ==> name[0].0 == "name"@);
    assert("name"@ != "platform"@);
    let cols = columns_of(content);
    assert forall|c: Seq<char>| cols.contains(c) implies c == "name"@ || c == "platform"@ by {
        let i = choose|i: int| 0 <= i < cols.len() && cols[i] == c;
        assert(cols[i] == content[i].0);
        if i < name.len() {
            assert(content[i] == name[i]);
        } else {
            assert(content[i] == platform[i - name.len()]);
        }
    }
    if payload.platform is None {
        assert(content =~= name);
        assert forall|i: int| 0 <= i < cols.len() implies cols[i] != "platform"@ by {
            assert(cols[i] == content[i].0);
        }
        lemma_absent_column_kept(row, content, "platform"@);
    } else {
        let k = content.len() - 1;
        assert(content[k] == platform[0]);
        lemma_assigned_column_set(row, content, k);
    }
    if payload.name is None {
        assert(content =~= platform);
        assert forall|i: int| 0 <= i < cols.len() implies cols[i] != "name"@ by {
            assert(cols[i] == content[i].0);
        }
        lemma_absent_column_kept(row, content, "name"@);
    } else {
        assert(content[0] == name[0]);
        assert forall|j: int| 0 < j < content.len() implies #[trigger] content[j].0 != content[0].0 by {
            assert(content[j] == platform[j - 1]);
        }
        lemma_assigned_column_set(row, content, 0);
    }
    assert forall|c: Seq<char>| c != "name"@ && c != "platform"@ implies #[trigger] apply_assignments(row, content).contains_key(c) == row.contains_key(c) by {
        lemma_absent_column_kept(row, content, c);
    }
    assert forall|c: Seq<char>| c != "name"@ && c != "platform"@ && row.contains_key(c) implies #[trigger] apply_assignments(row, content)[c] == row[c] by {
        lemma_absent_column_kept(row, content, c);
    }
}

/// An update of a collection's source: absent leaves the column as it was, `null`
/// clears it to the empty text, a string sets it.
pub proof fn lemma_clear_or_keep_source(row: Map<Seq<char>, SqlModel>, payload: UpdateCollectionPayload)
    requires
        payload.id is None,
        payload.name is None,
        payload.thumb is None,
    ensures
        ({
            let after = apply_assignments(row, payload.spec_update().content);
            &&& payload.source is None ==> after == row
            &&& payload.source == Some(WireValue::Null) ==> after == row.insert("source"@, SqlModel::Text(Seq::empty()))
            &&& (forall|s: String| payload.source == Some(WireValue::Text(s))
                ==> after == row.insert("source"@, SqlModel::Text(s@)))
        }),
{
    let content = payload.spec_update().content;
    if payload.source is None {
        assert(content =~= Seq::<(Seq<char>, SqlModel)>::empty());
    } else {
        assert(content.len() == 1);
        assert(content.drop_last() =~= Seq::<(Seq<char>, SqlModel)>::empty());
        assert(apply_assignments(row, content.drop_last()) == row);
        assert(content.last().0 == "source"@);
        assert(apply_assignments(row, content) == row.insert(content.last().0, content.last().1));
    }
}

/// Rows of a join table, as (owner, member) pairs; a set, so no pair twice.
pub open spec fn members(rows: Set<(u32, u32)>, owner: u32) -> Set<u32> {
    Set::new(|m: u32| rows.contains((owner, m)))
}

/// What the delete of a relation sync does: drops the owner's rows whose member
/// is not desired.
pub open spec fn delete_undesired(rows: Set<(u32, u32)>, owner: u32, desired: Set<u32>) -> Set<(u32, u32)> {
    rows.filter(|p: (u32, u32)| p.0 != owner || desired.contains(p.1))
}

/// What the insert-or-ignore of a relation sync does: adds a row for each desired
/// member that the owner lacks.
pub open spec fn insert_desired(rows: Set<(u32, u32)>, owner: u32, desired: Set<u32>) -> Set<(u32, u32)> {
    rows.union(Set::new(|p: (u32, u32)| p.0 == owner && desired.contains(p.1)))
}

/// A relation sync: the delete, then the insert.
pub open spec fn sync_relation(rows: Set<(u32, u32)>, owner: u32, desired: Set<u32>) -> Set<(u32, u32)> {
    insert_desired(delete_undesired(rows, owner, desired), owner, desired)
}

/// After a sync the owner's members are exactly the desired set: undesired ones
/// are removed, missing ones added, and those already present are never deleted.
/// Other owners' rows are untouched.
pub proof fn lemma_sync_replaces(rows: Set<(u32, u32)>, owner: u32, desired: Set<u32>)
    ensures
        members(sync_relation(rows, owner, desired), owner) == desired,
        forall|m: u32| #[trigger] rows.contains((owner, m)) && desired.contains(m)
            ==> delete_undesired(rows, owner, desired).contains((owner, m)),
        forall|o: u32, m: u32| o != owner ==> (#[trigger] sync_relation(rows, owner, desired).contains((o, m)) == rows.contains((o, m))),
{
    assert(members(sync_relation(rows, owner, desired), owner) =~= desired);
}

/// Syncing to the same set twice leaves the rows as the first sync left them; the
/// second sync deletes nothing and adds nothing.
pub proof fn lemma_sync_idempotent(rows: Set<(u32, u32)>, owner: u32, desired: Set<u32>)
    ensures
        sync_relation(sync_relation(rows, owner, desired), owner, desired) == sync_relation(rows, owner, desired),
        delete_undesired(sync_relation(rows, owner, desired), owner, desired) == sync_relation(rows, owner, desired),
{
    let once = sync_relation(rows, owner, desired);
    assert(delete_undesired(once, owner, desired) =~= once);
    assert(sync_relation(once, owner, desired) =~= once);
}

} // verus!
