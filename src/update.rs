use vstd::prelude::*;
use vstd::string::StringExecFns;

use crate::category::Category;
use crate::sql::{ids_json, json_ids, SqlModel, SqlValue, Statement, StatementModel};
use crate::wire::{text_patch_view, Patch};

verus! {

/// One column of the updated row and its new value.
pub struct Assignment {
    pub column: &'static str,
    pub value: SqlValue,
}

impl View for Assignment {
    type V = (Seq<char>, SqlModel);

    open spec fn view(&self) -> (Seq<char>, SqlModel) {
        (self.column@, self.value@)
    }
}

/// The complete desired member set of a many-to-many relation: rows of `table`
/// pair the owner (in column `related`) with a member (in column `field`).
pub struct RelationPayload {
    pub table: &'static str,
    pub field: &'static str,
    pub related: &'static str,
    pub ids: Vec<u32>,
}

pub struct RelationModel {
    pub table: Seq<char>,
    pub field: Seq<char>,
    pub related: Seq<char>,
    pub ids: Seq<u32>,
}

impl View for RelationPayload {
    type V = RelationModel;

    open spec fn view(&self) -> RelationModel {
        RelationModel { table: self.table@, field: self.field@, related: self.related@, ids: self.ids@ }
    }
}

/// What one update request changes: column assignments, and relation sets to
/// reconcile.
pub struct UpdateContext {
    pub content: Vec<Assignment>,
    pub relations: Vec<RelationPayload>,
}

pub struct ContextModel {
    pub content: Seq<(Seq<char>, SqlModel)>,
    pub relations: Seq<RelationModel>,
}

impl View for UpdateContext {
    type V = ContextModel;

    open spec fn view(&self) -> ContextModel {
        ContextModel {
            content: self.content@.map_values(|a: Assignment| a@),
            relations: self.relations@.map_values(|r: RelationPayload| r@),
        }
    }
}

/// An assignment for a plain text field, when it is present.
pub open spec fn text_field(column: Seq<char>, v: Option<String>) -> Seq<(Seq<char>, SqlModel)> {
    match v {
        Some(s) => seq![(column, SqlModel::Text(s@))],
        None => Seq::empty(),
    }
}

/// An assignment for a plain id field, when it is present.
pub open spec fn id_field(column: Seq<char>, v: Option<u32>) -> Seq<(Seq<char>, SqlModel)> {
    match v {
        Some(n) => seq![(column, SqlModel::Int(n as int))],
        None => Seq::empty(),
    }
}

/// An assignment for a reference that can be cleared: cleared means `NULL`.
pub open spec fn ref_field(column: Seq<char>, p: Patch<u32>) -> Seq<(Seq<char>, SqlModel)> {
    match p {
        Patch::Unset => Seq::empty(),
        Patch::Clear => seq![(column, SqlModel::Null)],
        Patch::Value(n) => seq![(column, SqlModel::Int(n as int))],
    }
}

/// An assignment for a text that can be cleared: cleared means the empty text.
pub open spec fn clearable_text_field(column: Seq<char>, p: Patch<Seq<char>>) -> Seq<(Seq<char>, SqlModel)> {
    match p {
        Patch::Unset => Seq::empty(),
        Patch::Clear => seq![(column, SqlModel::Text(Seq::empty()))],
        Patch::Value(s) => seq![(column, SqlModel::Text(s))],
    }
}

/// A relation instruction, when its member set is present.
pub open spec fn relation_field(table: Seq<char>, field: Seq<char>, related: Seq<char>, ids: Option<Vec<u32>>) -> Seq<RelationModel> {
    match ids {
        Some(v) => seq![RelationModel { table, field, related, ids: v@ }],
        None => Seq::empty(),
    }
}

impl UpdateContext {
    pub fn new() -> (r: UpdateContext)
        ensures
            r@.content == Seq::<(Seq<char>, SqlModel)>::empty(),
            r@.relations == Seq::<RelationModel>::empty(),
    {
        let r = UpdateContext { content: Vec::new(), relations: Vec::new() };
        assert(r@.content =~= Seq::empty());
        assert(r@.relations =~= Seq::empty());
        r
    }

    /// True when the request changes nothing.
    pub fn is_empty(&self) -> (r: bool)
        ensures
            r == (self@.content.len() == 0 && self@.relations.len() == 0),
    {
        self.content.len() == 0 && self.relations.len() == 0
    }

    fn push_assignment(&mut self, column: &'static str, value: SqlValue)
        ensures
            final(self)@.content == old(self)@.content + seq![(column@, value@)],
            final(self)@.relations == old(self)@.relations,
    {
        self.content.push(Assignment { column, value });
        assert(final(self)@.content =~= old(self)@.content + seq![(column@, value@)]);
    }

    pub fn set_text(&mut self, column: &'static str, v: &Option<String>)
        ensures
            final(self)@.content == old(self)@.content + text_field(column@, *v),
            final(self)@.relations == old(self)@.relations,
    {
        match v {
            Some(s) => self.push_assignment(column, SqlValue::Text(s.clone())),
            None => {
                assert(old(self)@.content + text_field(column@, *v) =~= old(self)@.content);
            },
        }
    }

    pub fn set_id(&mut self, column: &'static str, v: &Option<u32>)
        ensures
            final(self)@.content == old(self)@.content + id_field(column@, *v),
            final(self)@.relations == old(self)@.relations,
    {
        match v {
            Some(n) => self.push_assignment(column, SqlValue::Int(*n as i64)),
            None => {
                assert(old(self)@.content + id_field(column@, *v) =~= old(self)@.content);
            },
        }
    }

    pub fn set_ref(&mut self, column: &'static str, p: Patch<u32>)
        ensures
            final(self)@.content == old(self)@.content + ref_field(column@, p),
            final(self)@.relations == old(self)@.relations,
    {
        match p {
            Patch::Unset => {
                assert(old(self)@.content + ref_field(column@, p) =~= old(self)@.content);
            },
            Patch::Clear => self.push_assignment(column, SqlValue::Null),
            Patch::Value(n) => self.push_assignment(column, SqlValue::Int(n as i64)),
        }
    }

    pub fn set_clearable_text(&mut self, column: &'static str, p: Patch<String>)
        ensures
            final(self)@.content == old(self)@.content + clearable_text_field(column@, text_patch_view(p)),
            final(self)@.relations == old(self)@.relations,
    {
        match p {
            Patch::Unset => {
                assert(old(self)@.content + clearable_text_field(column@, text_patch_view(p)) =~= old(self)@.content);
            },
            Patch::Clear => {
                let empty = String::new();
                self.push_assignment(column, SqlValue::Text(empty));
            },
            Patch::Value(s) => self.push_assignment(column, SqlValue::Text(s)),
        }
    }

    pub fn set_relation(&mut self, table: &'static str, field: &'static str, related: &'static str, ids: &Option<Vec<u32>>)
        ensures
            final(self)@.content == old(self)@.content,
            final(self)@.relations == old(self)@.relations + relation_field(table@, field@, related@, *ids),
    {
        match ids {
            Some(v) => {
                self.relations.push(RelationPayload { table, field, related, ids: v.clone() });
                assert(final(self)@.relations =~= old(self)@.relations + relation_field(table@, field@, related@, *ids));
            },
            None => {
                assert(old(self)@.relations + relation_field(table@, field@, related@, *ids) =~= old(self)@.relations);
            },
        }
    }
}

/// Why an update request was refused before it reached the store.
#[derive(Debug, Clone, Copy, PartialEq, Eq, Structural)]
pub enum UpdateError {
    /// The request names no field and no relation: there is nothing to do.
    NothingToUpdate,
}

/// `a = ?, b = ?` for the columns `a`, `b`.
pub open spec fn set_clause(columns: Seq<Seq<char>>) -> Seq<char>
    decreases columns.len(),
{
    if columns.len() == 0 {
        Seq::empty()
    } else if columns.len() == 1 {
        columns[0] + " = ?"@
    } else {
        set_clause(columns.drop_last()) + ", "@ + columns.last() + " = ?"@
    }
}

pub open spec fn columns_of(content: Seq<(Seq<char>, SqlModel)>) -> Seq<Seq<char>> {
    content.map_values(|a: (Seq<char>, SqlModel)| a.0)
}

pub open spec fn values_of(content: Seq<(Seq<char>, SqlModel)>) -> Seq<SqlModel> {
    content.map_values(|a: (Seq<char>, SqlModel)| a.1)
}

/// One `UPDATE` of exactly the assigned columns of the row with id `id`.
pub open spec fn update_statement(table: Seq<char>, id: u32, content: Seq<(Seq<char>, SqlModel)>) -> StatementModel {
    StatementModel {
        sql: "UPDATE "@ + table + " SET "@ + set_clause(columns_of(content)) + " WHERE id = ?"@,
        params: values_of(content).push(SqlModel::Int(id as int)),
    }
}

/// Removes the owner's members that are not in the desired set.
pub open spec fn delete_statement(r: RelationModel, id: u32) -> StatementModel {
    StatementModel {
        sql: "DELETE FROM "@ + r.table + " WHERE "@ + r.related + " = ? AND "@ + r.field
            + " NOT IN (SELECT value FROM json_each(?))"@,
        params: seq![SqlModel::Int(id as int), SqlModel::Text(json_ids(r.ids))],
    }
}

/// Adds each member of the desired set that the owner does not have yet.
pub open spec fn insert_statement(r: RelationModel, id: u32) -> StatementModel {
    StatementModel {
        sql: "INSERT OR IGNORE INTO "@ + r.table + " ("@ + r.related + ", "@ + r.field
            + ") SELECT ?, value FROM json_each(?)"@,
        params: seq![SqlModel::Int(id as int), SqlModel::Text(json_ids(r.ids))],
    }
}

/// For each relation in order, its delete and then its insert.
pub open spec fn relation_statements(rels: Seq<RelationModel>, id: u32) -> Seq<StatementModel>
    decreases rels.len(),
{
    if rels.len() == 0 {
        Seq::empty()
    } else {
        relation_statements(rels.drop_last(), id) + seq![delete_statement(rels.last(), id), insert_statement(rels.last(), id)]
    }
}

/// The statements of one update, to run in one transaction: the `UPDATE` when a
/// column is assigned, then the reconciliation of each relation.
pub open spec fn update_plan(table: Seq<char>, id: u32, ctx: ContextModel) -> Seq<StatementModel> {
    (if ctx.content.len() > 0 { seq![update_statement(table, id, ctx.content)] } else { Seq::empty() })
        + relation_statements(ctx.relations, id)
}

pub open spec fn statements_view(s: Seq<Statement>) -> Seq<StatementModel> {
    s.map_values(|st: Statement| st@)
}

impl SqlValue {
    pub fn duplicate(&self) -> (r: SqlValue)
        ensures
            r@ == self@,
    {
        match self {
            SqlValue::Null => SqlValue::Null,
            SqlValue::Int(n) => SqlValue::Int(*n),
            SqlValue::Text(s) => SqlValue::Text(s.clone()),
        }
    }
}

fn build_update_statement(table: &str, id: u32, content: &Vec<Assignment>) -> (r: Statement)
    ensures
        r@ == update_statement(table@, id, content@.map_values(|a: Assignment| a@)),
{
    let ghost model = content@.map_values(|a: Assignment| a@);
    let mut set = String::new();
    let mut params: Vec<SqlValue> = Vec::new();
    let n = content.len();
    let mut i: usize = 0;
    while i < n
        invariant
            n == content@.len(),
            model == content@.map_values(|a: Assignment| a@),
            0 <= i <= n,
            set@ == set_clause(columns_of(model).take(i as int)),
            params@.len() == i,
            params@.map_values(|v: SqlValue| v@) == values_of(model).take(i as int),
        decreases n - i,
    {
        proof {
            assert(columns_of(model).take(i as int + 1).drop_last() =~= columns_of(model).take(i as int));
        }
        if i > 0 {
            set.append(", ");
        }
        set.append(content[i].column);
        set.append(" = ?");
        let ghost before = params@;
        params.push(content[i].value.duplicate());
        proof {
            assert(params@ == before.push(params@.last()));
            assert forall|j: int| 0 <= j < i implies #[trigger] params@[j] == before[j] by {}
            assert(model[i as int] == content@[i as int]@);
            assert(values_of(model)[i as int] == content@[i as int].value@);
            assert(params@.map_values(|v: SqlValue| v@) =~= values_of(model).take(i as int + 1));
            if i == 0 {
                assert(set@ =~= set_clause(columns_of(model).take(1)));
            } else {
                assert(set@ =~= set_clause(columns_of(model).take(i as int + 1)));
            }
        }
        i = i + 1;
    }
    assert(columns_of(model).take(n as int) =~= columns_of(model));
    assert(values_of(model).take(n as int) =~= values_of(model));
    let mut sql = String::from_str("UPDATE ");
    sql.append(table);
    sql.append(" SET ");
    sql.append(set.as_str());
    sql.append(" WHERE id = ?");
    params.push(SqlValue::Int(id as i64));
    let r = Statement { sql, params };
    assert(r@.params =~= values_of(model).push(SqlModel::Int(id as int)));
    r
}

fn build_delete_statement(r: &RelationPayload, id: u32) -> (s: Statement)
    ensures
        s@ == delete_statement(r@, id),
{
    let mut sql = String::from_str("DELETE FROM ");
    sql.append(r.table);
    sql.append(" WHERE ");
    sql.append(r.related);
    sql.append(" = ? AND ");
    sql.append(r.field);
    sql.append(" NOT IN (SELECT value FROM json_each(?))");
    let s = Statement { sql, params: vec![SqlValue::Int(id as i64), SqlValue::Text(ids_json(&r.ids))] };
    assert(s@.params =~= delete_statement(r@, id).params);
    s
}

fn build_insert_statement(r: &RelationPayload, id: u32) -> (s: Statement)
    ensures
        s@ == insert_statement(r@, id),
{
    let mut sql = String::from_str("INSERT OR IGNORE INTO ");
    sql.append(r.table);
    sql.append(" (");
    sql.append(r.related);
    sql.append(", ");
    sql.append(r.field);
    sql.append(") SELECT ?, value FROM json_each(?)");
    let s = Statement { sql, params: vec![SqlValue::Int(id as i64), SqlValue::Text(ids_json(&r.ids))] };
    assert(s@.params =~= insert_statement(r@, id).params);
    s
}

/// Turns an update request on the row `id` of `category` into the statements that
/// apply it, or refuses a request that changes nothing.
pub fn plan_update(category: Category, id: u32, ctx: &UpdateContext) -> (r: Result<Vec<Statement>, UpdateError>)
    ensures
        r is Err <==> (ctx@.content.len() == 0 && ctx@.relations.len() == 0),
        r matches Ok(s) ==> statements_view(s@) == update_plan(category.spec_table_name(), id, ctx@),
{
    if ctx.is_empty() {
        return Err(UpdateError::NothingToUpdate);
    }
    let mut out: Vec<Statement> = Vec::new();
    if ctx.content.len() > 0 {
        out.push(build_update_statement(category.table_name(), id, &ctx.content));
    }
    let ghost head = statements_view(out@);
    assert(head =~= (if ctx@.content.len() > 0 { seq![update_statement(category.spec_table_name(), id, ctx@.content)] } else { Seq::<StatementModel>::empty() }));
    let n = ctx.relations.len();
    let mut i: usize = 0;
    while i < n
        invariant
            n == ctx.relations@.len(),
            0 <= i <= n,
            statements_view(out@) == head + relation_statements(ctx@.relations.take(i as int), id),
        decreases n - i,
    {
        let rel = &ctx.relations[i];
        let ghost before = out@;
        let d = build_delete_statement(rel, id);
        let ins = build_insert_statement(rel, id);
        out.push(d);
        out.push(ins);
        proof {
            assert(out@ == before.push(d).push(ins));
            assert(statements_view(out@) =~= statements_view(before) + seq![d@, ins@]);
            assert(out@.len() == before.len() + 2);
            assert forall|j: int| 0 <= j < before.len() implies #[trigger] out@[j] == before[j] by {}
            assert(ctx@.relations.take(i as int + 1).drop_last() =~= ctx@.relations.take(i as int));
            assert(ctx@.relations[i as int] == rel@);
            assert(relation_statements(ctx@.relations.take(i as int + 1), id) == relation_statements(ctx@.relations.take(i as int), id) + seq![delete_statement(rel@, id), insert_statement(rel@, id)]);
            assert(statements_view(out@) =~= head + relation_statements(ctx@.relations.take(i as int + 1), id));
        }
        i = i + 1;
    }
    assert(ctx@.relations.take(n as int) =~= ctx@.relations);
    Ok(out)
}

} // verus!
