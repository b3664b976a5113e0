//! The SQL data frame: a chain of queries, each reading from the one before.
use vstd::prelude::*;
use crate::dialect::Dialect;
use crate::naming::{cte_name, parent_cte_name_for_index};
use crate::parse::{parse_sql_query, query_outcome, QueryOutcome, SqlError};
use crate::query::{chain_query_view, query_chain_to_cte, Query};
use crate::schema::{fields_view, Field, FieldView};

verus! {

/// A data frame held as a chain of SQL queries. Each query after the first
/// reads from the query before it, which it calls by the name that
/// `parent_name` gives.
#[derive(Debug)]
pub struct SqlDataFrame {
    prefix: String,
    columns: Vec<Field>,
    ctes: Vec<String>,
    dialect: Dialect,
    conn_id: String,
}

/// The value of a data frame.
pub struct FrameView {
    /// The prefix of the names of its queries.
    pub prefix: Seq<char>,
    /// Its columns.
    pub columns: Seq<FieldView>,
    /// The text of its queries, first to last.
    pub queries: Seq<Seq<char>>,
    /// The dialect of its connection.
    pub dialect: Dialect,
    /// The identifier of its connection.
    pub conn_id: Seq<char>,
}

impl View for SqlDataFrame {
    type V = FrameView;

    closed spec fn view(&self) -> FrameView {
        FrameView {
            prefix: self.prefix@,
            columns: fields_view(self.columns@),
            queries: crate::text::views(self.ctes@),
            dialect: self.dialect,
            conn_id: self.conn_id@,
        }
    }
}

/// Why a step of a query chain failed.
pub enum StepError {
    /// The step's text did not parse.
    Parse,
    /// The step's text held no statement.
    Empty,
    /// The step's text did not start with a query.
    NotQuery,
    /// The step's text nests too deeply to be parsed.
    TooDeep,
}

/// The name of the query that a new query chained onto `v` reads from.
pub open spec fn parent_of(v: FrameView) -> Seq<char> {
    cte_name(v.prefix, (v.queries.len() - 1) as nat)
}

/// `v` extended by one query, with the given columns.
pub open spec fn extend(v: FrameView, query: Seq<char>, columns: Seq<FieldView>) -> FrameView {
    FrameView { columns: columns, queries: v.queries.push(query), ..v }
}

/// The frame after parsing one more query text onto `v`, or why that failed.
pub open spec fn chain_step(v: FrameView, sql: Seq<char>, columns: Seq<FieldView>) -> Result<FrameView, StepError> {
    match query_outcome(v.dialect.parser_dialect, sql) {
        QueryOutcome::Query(t) => Ok(extend(v, t, columns)),
        QueryOutcome::ParseFailure => Err(StepError::Parse),
        QueryOutcome::Empty => Err(StepError::Empty),
        QueryOutcome::NotQuery => Err(StepError::NotQuery),
        QueryOutcome::TooDeep => Err(StepError::TooDeep),
    }
}

/// The frame after `f`, if `r` is a frame, else the error of `r`.
pub open spec fn and_then(r: Result<FrameView, StepError>, f: spec_fn(FrameView) -> Result<FrameView, StepError>) -> Result<FrameView, StepError> {
    match r {
        Ok(v) => f(v),
        Err(e) => Err(e),
    }
}

/// Whether an exec result is the frame, or the error, that `r` describes.
pub open spec fn frame_result_matches(res: Result<SqlDataFrame, SqlError>, r: Result<FrameView, StepError>) -> bool {
    match r {
        Ok(v) => res matches Ok(df) && df@ == v,
        Err(StepError::Parse) => res matches Err(SqlError::Parse(_)),
        Err(StepError::Empty) => res matches Err(SqlError::Internal(m)) && m@ == "Parser result empty"@,
        Err(StepError::NotQuery) => res matches Err(SqlError::Internal(m)) && m@ == "Parser result was not a query"@,
        Err(StepError::TooDeep) => res matches Err(SqlError::Internal(m)) && m@ == "SQL text nests too deeply to parse"@,
    }
}

impl SqlDataFrame {
    #[verifier::type_invariant]
    spec fn has_query(self) -> bool {
        self.ctes@.len() >= 1
    }

    /// Every data frame holds at least one query.
    pub fn query_count(&self) -> (n: usize)
        ensures
            n == self@.queries.len(),
            n >= 1,
    {
        proof { use_type_invariant(self); }
        self.ctes.len()
    }

    /// A data frame of the single query `query`.
    pub(crate) fn from_query(prefix: String, columns: Vec<Field>, query: String, dialect: Dialect, conn_id: String) -> (df: SqlDataFrame)
        ensures
            df@ == (FrameView { prefix: prefix@, columns: fields_view(columns@), queries: seq![query@], dialect: dialect, conn_id: conn_id@ }),
    {
        let mut ctes: Vec<String> = Vec::new();
        ctes.push(query);
        let df = SqlDataFrame { prefix, columns, ctes, dialect, conn_id };
        assert(df@.queries =~= seq![query@]);
        df
    }

    /// The dialect of the frame's connection.
    pub fn dialect(&self) -> (d: &Dialect)
        ensures
            *d == self@.dialect,
    {
        &self.dialect
    }

    /// The identifier of the frame's connection.
    pub fn conn_id(&self) -> (id: &String)
        ensures
            id@ == self@.conn_id,
    {
        &self.conn_id
    }

    /// The frame's columns.
    pub fn schema(&self) -> (columns: &Vec<Field>)
        ensures
            fields_view(columns@) == self@.columns,
    {
        &self.columns
    }

    /// The name of the last query of the chain, which a query chained onto
    /// this frame reads from.
    pub fn parent_name(&self) -> (name: String)
        ensures
            name@ == parent_of(self@),
            self@.queries.len() >= 1,
    {
        proof { use_type_invariant(self); }
        parent_cte_name_for_index(self.prefix.as_str(), self.ctes.len())
    }

    /// The whole chain as one query: the last query, reading from the others
    /// as common table expressions.
    pub fn as_query(&self) -> (q: Query)
        ensures
            q@ == chain_query_view(self@.prefix, self@.queries),
            self@.queries.len() >= 1,
    {
        proof { use_type_invariant(self); }
        query_chain_to_cte(&self.ctes, self.prefix.as_str())
    }

    /// This frame with `query` added to the end of its chain; the new frame
    /// has the given columns.
    pub(crate) fn chain_query(&self, query: String, columns: Vec<Field>) -> (df: SqlDataFrame)
        ensures
            df@ == extend(self@, query@, fields_view(columns@)),
    {
        proof { use_type_invariant(self); }
        let mut ctes = self.ctes.clone();
        let ghost q = query@;
        ctes.push(query);
        let df = SqlDataFrame {
            prefix: self.prefix.clone(),
            columns,
            ctes,
            dialect: self.dialect.clone(),
            conn_id: self.conn_id.clone(),
        };
        assert(df@.queries =~= self@.queries.push(q));
        df
    }

    /// Parses `query` in the frame's dialect and adds it to the end of the
    /// chain; the new frame has the given columns.
    pub(crate) fn chain_query_str(&self, query: &str, columns: Vec<Field>) -> (res: Result<SqlDataFrame, SqlError>)
        ensures
            frame_result_matches(res, chain_step(self@, query@, fields_view(columns@))),
    {
        let parsed = parse_sql_query(query, self.dialect.parser_dialect)?;
        Ok(self.chain_query(parsed, columns))
    }
}

} // verus!
