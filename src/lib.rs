// A resource engine over an archive's relational store: listing, lookup and
// deletion queries per entity kind, partial updates planned as parameterised
// statements with relation-set reconciliation, and batched loading of the
// platforms and file metadata that a response references.

pub mod category;
pub mod pagination;
pub mod payload;
pub mod relation;
pub mod sql;
pub mod store;
pub mod transaction;
pub mod update;
pub mod wire;
