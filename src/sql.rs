use vstd::prelude::*;

verus! {

/// A value bound to one `?` placeholder of a statement.
#[derive(Debug, PartialEq, Eq)]
pub enum SqlValue {
    Null,
    Int(i64),
    Text(String),
}

/// The mathematical value of a [`SqlValue`].
pub enum SqlModel {
    Null,
    Int(int),
    Text(Seq<char>),
}

impl View for SqlValue {
    type V = SqlModel;

    open spec fn view(&self) -> SqlModel {
        match self {
            SqlValue::Null => SqlModel::Null,
            SqlValue::Int(n) => SqlModel::Int(*n as int),
            SqlValue::Text(s) => SqlModel::Text(s@),
        }
    }
}

/// One parameterised statement: its text and the values of its placeholders, in order.
#[derive(Debug)]
pub struct Statement {
    pub sql: String,
    pub params: Vec<SqlValue>,
}

pub struct StatementModel {
    pub sql: Seq<char>,
    pub params: Seq<SqlModel>,
}

impl View for Statement {
    type V = StatementModel;

    open spec fn view(&self) -> StatementModel {
        StatementModel { sql: self.sql@, params: self.params@.map_values(|v: SqlValue| v@) }
    }
}

pub open spec fn digit_char(d: nat) -> char {
    seq!['0', '1', '2', '3', '4', '5', '6', '7', '8', '9'][d as int]
}

/// Decimal notation of a natural number, without sign or leading zeros.
pub open spec fn decimal(n: nat) -> Seq<char>
    decreases n,
{
    if n < 10 {
        seq![digit_char(n)]
    } else {
        decimal(n / 10).push(digit_char(n % 10))
    }
}

/// The elements of a JSON array of integers, separated by commas.
pub open spec fn json_items(ids: Seq<u32>) -> Seq<char>
    decreases ids.len(),
{
    if ids.len() == 0 {
        Seq::empty()
    } else if ids.len() == 1 {
        decimal(ids[0] as nat)
    } else {
        json_items(ids.drop_last()) + seq![','] + decimal(ids.last() as nat)
    }
}

/// Compact JSON text of an array of integers, such as `[1,22,3]`.
pub open spec fn json_ids(ids: Seq<u32>) -> Seq<char> {
    seq!['['] + json_items(ids) + seq![']']
}

/// Relies on serde_json::to_string: a `Vec<u32>` is written in compact form, as `[`,
/// the decimal numbers separated by `,`, and `]`; serialising it cannot fail.
#[verifier::external_body]
pub(crate) fn ids_json(ids: &Vec<u32>) -> (r: String)
    ensures
        r@ == json_ids(ids@),
{
    serde_json::to_string(ids).unwrap_or_default()
}

} // verus!
