//! A chain of queries as one query with common table expressions.
use vstd::prelude::*;
use crate::naming::{cte_name, cte_name_for_index};
use crate::text::{join, join_strings, views};

verus! {

/// A common table expression: `name AS (query)`.
#[derive(Debug)]
pub struct Cte {
    pub name: String,
    pub query: String,
}

/// A query with the common table expressions it reads from.
#[derive(Debug)]
pub struct Query {
    pub with: Vec<Cte>,
    pub body: String,
}

/// The value of a query: its common table expressions as (name, query text)
/// pairs, and its body.
pub struct QueryView {
    pub with: Seq<(Seq<char>, Seq<char>)>,
    pub body: Seq<char>,
}

impl View for Query {
    type V = QueryView;

    open spec fn view(&self) -> QueryView {
        QueryView {
            with: Seq::new(self.with@.len(), |i: int| (self.with@[i].name@, self.with@[i].query@)),
            body: self.body@,
        }
    }
}

/// The text of one common table expression.
pub open spec fn cte_clause(name: Seq<char>, query: Seq<char>) -> Seq<char> {
    name + " AS ("@ + query + ")"@
}

/// The text of a query with common table expressions: the body alone when
/// there are none, else `WITH` and the comma-separated expressions before it.
pub open spec fn query_text(q: QueryView) -> Seq<char> {
    if q.with.len() == 0 {
        q.body
    } else {
        "WITH "@ + join(Seq::new(q.with.len(), |i: int| cte_clause(q.with[i].0, q.with[i].1)), ", "@) + " "@ + q.body
    }
}

/// The common table expressions of a chain: every query but the last, each
/// named after its position.
pub open spec fn chain_ctes(prefix: Seq<char>, queries: Seq<Seq<char>>) -> Seq<(Seq<char>, Seq<char>)> {
    Seq::new((queries.len() - 1) as nat, |i: int| (cte_name(prefix, i as nat), queries[i]))
}

/// The single query that a chain of queries stands for: the last query,
/// reading from all the others as common table expressions.
pub open spec fn chain_query_view(prefix: Seq<char>, queries: Seq<Seq<char>>) -> QueryView {
    QueryView { with: chain_ctes(prefix, queries), body: queries.last() }
}

/// The text of the single query that a chain of queries stands for.
pub open spec fn chain_sql(prefix: Seq<char>, queries: Seq<Seq<char>>) -> Seq<char> {
    query_text(chain_query_view(prefix, queries))
}

impl Query {
    /// The SQL text of the query.
    pub fn to_sql(&self) -> (res: String)
        ensures
            res@ == query_text(self@),
    {
        if self.with.len() == 0 {
            return self.body.clone();
        }
        let mut clauses: Vec<String> = Vec::new();
        let n = self.with.len();
        let mut i: usize = 0;
        while i < n
            invariant
                n == self.with@.len(),
                i <= n,
                clauses@.len() == i,
                forall|j: int| 0 <= j < i ==> #[trigger] clauses@[j]@ == cte_clause(self.with@[j].name@, self.with@[j].query@),
            decreases n - i,
        {
            let mut clause = String::new();
            clause.append(self.with[i].name.as_str());
            clause.append(" AS (");
            clause.append(self.with[i].query.as_str());
            clause.append(")");
            clauses.push(clause);
            i = i + 1;
        }
        let mut res = String::new();
        res.append("WITH ");
        let joined = join_strings(&clauses, ", ");
        res.append(joined.as_str());
        res.append(" ");
        res.append(self.body.as_str());
        proof {
            assert(views(clauses@) =~= Seq::new(self@.with.len(), |i: int| cte_clause(self@.with[i].0, self@.with[i].1)));
        }
        res
    }
}

/// Turns a chain of queries into one query: every query but the last becomes
/// a common table expression named after its position, and the last query
/// reads from them.
pub fn query_chain_to_cte(queries: &Vec<String>, prefix: &str) -> (res: Query)
    requires
        queries@.len() >= 1,
    ensures
        res@ == chain_query_view(prefix@, views(queries@)),
{
    let n = queries.len();
    let mut ctes: Vec<Cte> = Vec::new();
    let mut i: usize = 0;
    while i < n - 1
        invariant
            n == queries@.len(),
            n >= 1,
            i <= n - 1,
            ctes@.len() == i,
            forall|j: int| 0 <= j < i ==> (#[trigger] ctes@[j]).name@ == cte_name(prefix@, j as nat)
                && ctes@[j].query@ == queries@[j]@,
        decreases n - 1 - i,
    {
        let name = cte_name_for_index(prefix, i);
        ctes.push(Cte { name, query: queries[i].clone() });
        i = i + 1;
    }
    let res = Query { with: ctes, body: queries[n - 1].clone() };
    proof {
        assert(res@.with =~= chain_ctes(prefix@, views(queries@)));
    }
    res
}

} // verus!
