use std::collections::HashMap;
use vstd::prelude::*;
use vstd::string::StringExecFns;

use crate::sql::{ids_json, json_ids, SqlModel, SqlValue, Statement, StatementModel};

verus! {

broadcast use vstd::std_specs::hash::group_hash_axioms;

/// What a response value references: the ids of platforms and of file metadata
/// that a reader of it will want to see resolved.
pub trait RequireRelations: Sized {
    spec fn spec_platforms(&self) -> Seq<u32>;

    spec fn spec_file_metas(&self) -> Seq<u32>;

    fn platforms(&self) -> (r: Vec<u32>)
        ensures
            r@ == self.spec_platforms(),
    ;

    fn file_metas(&self) -> (r: Vec<u32>)
        ensures
            r@ == self.spec_file_metas(),
    ;
}

pub open spec fn option_seq(o: Option<u32>) -> Seq<u32> {
    match o {
        Some(x) => seq![x],
        None => Seq::empty(),
    }
}

fn option_vec(o: Option<u32>) -> (r: Vec<u32>)
    ensures
        r@ == option_seq(o),
{
    let mut r: Vec<u32> = Vec::new();
    if let Some(x) = o {
        r.push(x);
    }
    assert(r@ =~= option_seq(o));
    r
}

/// The platforms referenced by each item, one item after the other.
pub open spec fn all_platforms<T: RequireRelations>(items: Seq<T>) -> Seq<u32>
    decreases items.len(),
{
    if items.len() == 0 {
        Seq::empty()
    } else {
        all_platforms(items.drop_last()) + items.last().spec_platforms()
    }
}

/// The file metadata referenced by each item, one item after the other.
pub open spec fn all_file_metas<T: RequireRelations>(items: Seq<T>) -> Seq<u32>
    decreases items.len(),
{
    if items.len() == 0 {
        Seq::empty()
    } else {
        all_file_metas(items.drop_last()) + items.last().spec_file_metas()
    }
}

fn collect_platforms<T: RequireRelations>(items: &Vec<T>) -> (r: Vec<u32>)
    ensures
        r@ == all_platforms(items@),
{
    let mut r: Vec<u32> = Vec::new();
    let mut i: usize = 0;
    while i < items.len()
        invariant
            0 <= i <= items@.len(),
            r@ == all_platforms(items@.take(i as int)),
        decreases items@.len() - i,
    {
        let mut more = items[i].platforms();
        r.append(&mut more);
        assert(items@.take(i as int + 1).drop_last() =~= items@.take(i as int));
        i = i + 1;
    }
    assert(items@.take(i as int) =~= items@);
    r
}

fn collect_file_metas<T: RequireRelations>(items: &Vec<T>) -> (r: Vec<u32>)
    ensures
        r@ == all_file_metas(items@),
{
    let mut r: Vec<u32> = Vec::new();
    let mut i: usize = 0;
    while i < items.len()
        invariant
            0 <= i <= items@.len(),
            r@ == all_file_metas(items@.take(i as int)),
        decreases items@.len() - i,
    {
        let mut more = items[i].file_metas();
        r.append(&mut more);
        assert(items@.take(i as int + 1).drop_last() =~= items@.take(i as int));
        i = i + 1;
    }
    assert(items@.take(i as int) =~= items@);
    r
}

/// The reference fields of a stored entity: a post has a thumbnail and a platform,
/// an author or a collection a thumbnail, a tag or an author's alias a platform.
#[derive(Debug, Clone, Copy, PartialEq, Eq, Structural)]
pub struct EntityRefs {
    pub platform: Option<u32>,
    pub thumb: Option<u32>,
}

impl RequireRelations for EntityRefs {
    open spec fn spec_platforms(&self) -> Seq<u32> {
        option_seq(self.platform)
    }

    open spec fn spec_file_metas(&self) -> Seq<u32> {
        option_seq(self.thumb)
    }

    fn platforms(&self) -> (r: Vec<u32>) {
        option_vec(self.platform)
    }

    fn file_metas(&self) -> (r: Vec<u32>) {
        option_vec(self.thumb)
    }
}

/// A post in a listing.
pub struct PostShortResponse {
    pub id: u32,
    pub title: String,
    pub thumb: Option<u32>,
    pub platform: Option<u32>,
}

impl RequireRelations for PostShortResponse {
    open spec fn spec_platforms(&self) -> Seq<u32> {
        option_seq(self.platform)
    }

    open spec fn spec_file_metas(&self) -> Seq<u32> {
        option_seq(self.thumb)
    }

    fn platforms(&self) -> (r: Vec<u32>) {
        option_vec(self.platform)
    }

    fn file_metas(&self) -> (r: Vec<u32>) {
        option_vec(self.thumb)
    }
}

/// An entry of a listing by name.
pub struct ListItemResponse {
    pub id: u32,
    pub name: String,
    pub thumb: Option<u32>,
}

impl RequireRelations for ListItemResponse {
    open spec fn spec_platforms(&self) -> Seq<u32> {
        Seq::empty()
    }

    open spec fn spec_file_metas(&self) -> Seq<u32> {
        option_seq(self.thumb)
    }

    fn platforms(&self) -> (r: Vec<u32>) {
        Vec::new()
    }

    fn file_metas(&self) -> (r: Vec<u32>) {
        option_vec(self.thumb)
    }
}

/// One page of a listing.
pub struct ListResponse<T> {
    pub list: Vec<T>,
}

impl<T: RequireRelations> RequireRelations for ListResponse<T> {
    open spec fn spec_platforms(&self) -> Seq<u32> {
        all_platforms(self.list@)
    }

    open spec fn spec_file_metas(&self) -> Seq<u32> {
        all_file_metas(self.list@)
    }

    fn platforms(&self) -> (r: Vec<u32>) {
        collect_platforms(&self.list)
    }

    fn file_metas(&self) -> (r: Vec<u32>) {
        collect_file_metas(&self.list)
    }
}

/// The references of a full post: its platform and thumbnail, the files its content
/// embeds, and the references of its tags, authors and collections.
pub struct PostResponse {
    pub platform: Option<u32>,
    pub thumb: Option<u32>,
    pub files: Vec<u32>,
    pub tags: Vec<EntityRefs>,
    pub authors: Vec<EntityRefs>,
    pub collections: Vec<EntityRefs>,
}

impl RequireRelations for PostResponse {
    open spec fn spec_platforms(&self) -> Seq<u32> {
        option_seq(self.platform) + all_platforms(self.tags@)
    }

    open spec fn spec_file_metas(&self) -> Seq<u32> {
        self.files@ + option_seq(self.thumb) + all_file_metas(self.authors@) + all_file_metas(
            self.collections@,
        )
    }

    fn platforms(&self) -> (r: Vec<u32>) {
        let mut r = option_vec(self.platform);
        let mut tags = collect_platforms(&self.tags);
        r.append(&mut tags);
        r
    }

    fn file_metas(&self) -> (r: Vec<u32>) {
        let mut r = self.files.clone();
        let mut thumb = option_vec(self.thumb);
        r.append(&mut thumb);
        let mut authors = collect_file_metas(&self.authors);
        r.append(&mut authors);
        let mut collections = collect_file_metas(&self.collections);
        r.append(&mut collections);
        r
    }
}

/// The ids of `s`, each kept at its first place and dropped where it repeats.
pub open spec fn distinct_ids(s: Seq<u32>) -> Seq<u32>
    decreases s.len(),
{
    if s.len() == 0 {
        Seq::empty()
    } else {
        let d = distinct_ids(s.drop_last());
        if d.contains(s.last()) {
            d
        } else {
            d.push(s.last())
        }
    }
}

/// The ids that a lookup of these ids in a table whose rows carry `row_ids` finds.
pub open spec fn found_ids(wanted: Seq<u32>, row_ids: Seq<u32>) -> Set<u32> {
    Set::new(|k: u32| wanted.contains(k) && row_ids.contains(k))
}

pub open spec fn ids_of<V>(rows: Seq<(u32, V)>) -> Seq<u32> {
    rows.map_values(|r: (u32, V)| r.0)
}

/// The single query that loads every row of `table` whose id is among `ids`.
pub open spec fn lookup_statement(table: Seq<char>, ids: Seq<u32>) -> StatementModel {
    StatementModel {
        sql: "SELECT * FROM "@ + table + " WHERE id IN (SELECT value FROM json_each(?))"@,
        params: seq![SqlModel::Text(json_ids(ids))],
    }
}

/// `distinct_ids` holds no id twice and holds exactly the ids of `s`.
pub proof fn lemma_distinct_ids(s: Seq<u32>)
    ensures
        distinct_ids(s).no_duplicates(),
        forall|x: u32| distinct_ids(s).contains(x) <==> s.contains(x),
    decreases s.len(),
{
    if s.len() > 0 {
        lemma_distinct_ids(s.drop_last());
        let d = distinct_ids(s.drop_last());
        assert forall|x: u32| s.contains(x) <==> (s.drop_last().contains(x) || x == s.last()) by {
            if s.contains(x) {
                let i = choose|i: int| 0 <= i < s.len() && s[i] == x;
                if i < s.len() - 1 {
                    assert(s.drop_last()[i] == x);
                }
            }
            if x == s.last() {
                assert(s[s.len() - 1] == x);
            }
            if s.drop_last().contains(x) {
                let i = choose|i: int| 0 <= i < s.drop_last().len() && s.drop_last()[i] == x;
                assert(s[i] == x);
            }
        }
        if !d.contains(s.last()) {
            assert forall|x: u32| d.push(s.last()).contains(x) <==> (d.contains(x) || x == s.last()) by {
                if d.push(s.last()).contains(x) {
                    let i = choose|i: int| 0 <= i < d.push(s.last()).len() && d.push(s.last())[i] == x;
                    if i < d.len() {
                        assert(d[i] == x);
                    }
                }
                if d.contains(x) {
                    let i = choose|i: int| 0 <= i < d.len() && d[i] == x;
                    assert(d.push(s.last())[i] == x);
                }
                if x == s.last() {
                    assert(d.push(s.last())[d.len() as int] == x);
                }
            }
        }
    }
}

fn contains_id(v: &Vec<u32>, x: u32) -> (b: bool)
    ensures
        b == v@.contains(x),
{
    let mut i: usize = 0;
    while i < v.len()
        invariant
            0 <= i <= v@.len(),
            forall|j: int| 0 <= j < i ==> v@[j] != x,
        decreases v@.len() - i,
    {
        if v[i] == x {
            assert(v@[i as int] == x);
            return true;
        }
        i = i + 1;
    }
    false
}

/// The ids of `v` without repeats, in the order of their first appearance.
pub fn dedup_ids(v: &Vec<u32>) -> (r: Vec<u32>)
    ensures
        r@ == distinct_ids(v@),
        r@.no_duplicates(),
        forall|x: u32| r@.contains(x) <==> v@.contains(x),
{
    let mut r: Vec<u32> = Vec::new();
    let mut i: usize = 0;
    while i < v.len()
        invariant
            0 <= i <= v@.len(),
            r@ == distinct_ids(v@.take(i as int)),
        decreases v@.len() - i,
    {
        assert(v@.take(i as int + 1).drop_last() =~= v@.take(i as int));
        assert(v@.take(i as int + 1).last() == v@[i as int]);
        if !contains_id(&r, v[i]) {
            r.push(v[i]);
        }
        i = i + 1;
    }
    assert(v@.take(i as int) =~= v@);
    proof {
        lemma_distinct_ids(v@);
    }
    r
}

/// The secondary entities that one response needs, each id once.
pub struct RelationQuery {
    pub platform_ids: Vec<u32>,
    pub file_meta_ids: Vec<u32>,
}

impl RelationQuery {
    /// The lookups of a response: the ids that it references, without repeats.
    pub fn new<T: RequireRelations>(payload: &T) -> (r: RelationQuery)
        ensures
            r.platform_ids@ == distinct_ids(payload.spec_platforms()),
            r.file_meta_ids@ == distinct_ids(payload.spec_file_metas()),
    {
        let platforms = payload.platforms();
        let file_metas = payload.file_metas();
        RelationQuery { platform_ids: dedup_ids(&platforms), file_meta_ids: dedup_ids(&file_metas) }
    }

    /// The one query of the platforms, or none when no platform is referenced.
    pub fn platforms_query(&self) -> (r: Option<Statement>)
        ensures
            r is None <==> self.platform_ids@.len() == 0,
            r matches Some(s) ==> s@ == lookup_statement("platforms"@, self.platform_ids@),
    {
        lookup(&self.platform_ids, "platforms")
    }

    /// The one query of the file metadata, or none when no file is referenced.
    pub fn file_metas_query(&self) -> (r: Option<Statement>)
        ensures
            r is None <==> self.file_meta_ids@.len() == 0,
            r matches Some(s) ==> s@ == lookup_statement("file_metas"@, self.file_meta_ids@),
    {
        lookup(&self.file_meta_ids, "file_metas")
    }
}

fn lookup(ids: &Vec<u32>, table: &str) -> (r: Option<Statement>)
    ensures
        r is None <==> ids@.len() == 0,
        r matches Some(s) ==> s@ == lookup_statement(table@, ids@),
{
    if ids.len() == 0 {
        return None;
    }
    let mut sql = String::from_str("SELECT * FROM ");
    sql.append(table);
    sql.append(" WHERE id IN (SELECT value FROM json_each(?))");
    let s = Statement { sql, params: vec![SqlValue::Text(ids_json(ids))] };
    assert(s@.params =~= lookup_statement(table@, ids@).params);
    Some(s)
}

/// The rows found for `wanted`, keyed by id. Rows for ids that were not asked for
/// are left out.
pub fn key_rows<V>(wanted: &Vec<u32>, rows: Vec<(u32, V)>) -> (m: HashMap<u32, V>)
    ensures
        m@.dom() == found_ids(wanted@, ids_of(rows@)),
        forall|k: u32| #[trigger] m@.contains_key(k) ==> rows@.contains((k, m@[k])),
{
    let ghost all = rows@;
    let mut rows = rows;
    let mut m: HashMap<u32, V> = HashMap::new();
    while rows.len() > 0
        invariant
            rows@ == all.take(rows@.len() as int),
            rows@.len() <= all.len(),
            m@.dom() == found_ids(wanted@, ids_of(all.skip(rows@.len() as int))),
            forall|k: u32| #[trigger] m@.contains_key(k) ==> all.contains((k, m@[k])),
        decreases rows@.len(),
    {
        let ghost n = rows@.len() as int;
        let ghost done = all.skip(n);
        let (id, v) = rows.pop().unwrap();
        proof {
            assert(all[n - 1] == (id, v));
            assert(rows@ =~= all.take(n - 1));
            assert(all.skip(n - 1) =~= seq![(id, v)] + done);
            assert(ids_of(all.skip(n - 1)) =~= seq![id] + ids_of(done));
            assert forall|k: u32| ids_of(all.skip(n - 1)).contains(k) <==> (k == id || ids_of(done).contains(k)) by {
                let s = ids_of(all.skip(n - 1));
                if s.contains(k) {
                    let i = choose|i: int| 0 <= i < s.len() && s[i] == k;
                    if i > 0 {
                        assert(ids_of(done)[i - 1] == k);
                    }
                }
                if k == id {
                    assert(s[0] == k);
                }
                if ids_of(done).contains(k) {
                    let i = choose|i: int| 0 <= i < ids_of(done).len() && ids_of(done)[i] == k;
                    assert(s[i + 1] == k);
                }
            }
            assert(all.contains((id, v)));
        }
        if contains_id(wanted, id) {
            m.insert(id, v);
        }
        proof {
            assert(m@.dom() =~= found_ids(wanted@, ids_of(all.skip(n - 1))));
        }
    }
    proof {
        assert(all.skip(0) =~= all);
    }
    m
}

/// A response with the entities it references, keyed by id.
pub struct WithRelations<T, P, F> {
    pub payload: T,
    pub platforms: HashMap<u32, P>,
    pub file_metas: HashMap<u32, F>,
}

impl<T, P, F> WithRelations<T, P, F> {
    /// Bundles a response with the rows that its two lookups returned. An id whose
    /// row is missing is left out; the response itself is kept as it is.
    pub fn new(payload: T, query: &RelationQuery, platform_rows: Vec<(u32, P)>, file_meta_rows: Vec<(u32, F)>) -> (r: Self)
        ensures
            r.payload == payload,
            r.platforms@.dom() == found_ids(query.platform_ids@, ids_of(platform_rows@)),
            r.file_metas@.dom() == found_ids(query.file_meta_ids@, ids_of(file_meta_rows@)),
            forall|k: u32| #[trigger] r.platforms@.contains_key(k) ==> platform_rows@.contains((k, r.platforms@[k])),
            forall|k: u32| #[trigger] r.file_metas@.contains_key(k) ==> file_meta_rows@.contains((k, r.file_metas@[k])),
    {
        let platforms = key_rows(&query.platform_ids, platform_rows);
        let file_metas = key_rows(&query.file_meta_ids, file_meta_rows);
        WithRelations { payload, platforms, file_metas }
    }
}

/// However often a response references an id, its lookup asks for that id exactly
/// once, and the lookup asks for nothing the response does not reference.
pub proof fn lemma_lookup_asks_once<T: RequireRelations>(payload: T)
    ensures
        distinct_ids(payload.spec_platforms()).no_duplicates(),
        distinct_ids(payload.spec_file_metas()).no_duplicates(),
        forall|x: u32| #[trigger] distinct_ids(payload.spec_platforms()).contains(x) <==> payload.spec_platforms().contains(x),
        forall|x: u32| #[trigger] distinct_ids(payload.spec_file_metas()).contains(x) <==> payload.spec_file_metas().contains(x),
{
    lemma_distinct_ids(payload.spec_platforms());
    lemma_distinct_ids(payload.spec_file_metas());
}

/// A referenced id is in the bundle exactly when the store returned its row, and
/// the bundle holds no id that the response does not reference.
pub proof fn lemma_bundle_complete<T: RequireRelations, P, F>(payload: T, platform_rows: Seq<(u32, P)>, file_meta_rows: Seq<(u32, F)>)
    ensures
        forall|k: u32| payload.spec_platforms().contains(k) ==>
            (#[trigger] found_ids(distinct_ids(payload.spec_platforms()), ids_of(platform_rows)).contains(k) <==> ids_of(platform_rows).contains(k)),
        forall|k: u32| payload.spec_file_metas().contains(k) ==>
            (#[trigger] found_ids(distinct_ids(payload.spec_file_metas()), ids_of(file_meta_rows)).contains(k) <==> ids_of(file_meta_rows).contains(k)),
        forall|k: u32| #[trigger] found_ids(distinct_ids(payload.spec_platforms()), ids_of(platform_rows)).contains(k) ==> payload.spec_platforms().contains(k),
        forall|k: u32| #[trigger] found_ids(distinct_ids(payload.spec_file_metas()), ids_of(file_meta_rows)).contains(k) ==> payload.spec_file_metas().contains(k),
{
    lemma_distinct_ids(payload.spec_platforms());
    lemma_distinct_ids(payload.spec_file_metas());
}

} // verus!
