//! A fingerprint of a data frame: a hash of its connection and its query.
use vstd::prelude::*;
use std::collections::hash_map::DefaultHasher;
use std::hash::{Hash, Hasher};
use deterministic_hash::DeterministicHasher;
use crate::frame::SqlDataFrame;
use crate::query::chain_sql;

verus! {

/// The hash that `deterministic_hash::DeterministicHasher` over std's
/// `DefaultHasher` (created with `new`, so with fixed keys) gives of a
/// connection identifier followed by a query text.
pub uninterp spec fn query_fingerprint(conn_id: Seq<char>, query: Seq<char>) -> u64;

/// Hashes `conn_id` and then `query` (each as `str::hash` writes it) into a
/// `deterministic_hash::DeterministicHasher` wrapping a new std
/// `DefaultHasher`, and returns `finish()`. `DefaultHasher::new` has fixed
/// keys and `DeterministicHasher` writes integers in one byte order, so the
/// hash is a function of the two strings (for one build of the program,
/// since std does not fix the algorithm across its releases); that is all
/// that is claimed of it.
#[verifier::external_body]
fn hash_conn_and_query(conn_id: &str, query: &str) -> (h: u64)
    ensures
        h == query_fingerprint(conn_id@, query@),
{
    let mut hasher = DeterministicHasher::new(DefaultHasher::new());
    conn_id.hash(&mut hasher);
    query.hash(&mut hasher);
    hasher.finish()
}

impl SqlDataFrame {
    /// A hash of the frame's connection identifier and the text of its query.
    pub fn fingerprint(&self) -> (h: u64)
        ensures
            h == query_fingerprint(self@.conn_id, chain_sql(self@.prefix, self@.queries)),
    {
        let query = self.as_query().to_sql();
        hash_conn_and_query(self.conn_id().as_str(), query.as_str())
    }

    /// The text of the frame's query: the whole chain as one query.
    pub fn query_string(&self) -> (sql: String)
        ensures
            sql@ == chain_sql(self@.prefix, self@.queries),
    {
        self.as_query().to_sql()
    }
}

} // verus!
