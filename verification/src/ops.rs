//! Selection, ordering, filtering and aggregation of a data frame.
use vstd::prelude::*;
use crate::exprs::{items, items_of, make_new_schema_from_exprs, output_fields, sqls, sqls_of, CompiledExpr};
use crate::schema::{copy_fields, fields_view, Field};
use crate::frame::{chain_step, frame_result_matches, parent_of, SqlDataFrame};
use crate::parse::{parse_sql_query, query_outcome, result_matches_outcome, SqlError};
use crate::text::{append_signed_decimal, join, join_strings, signed_decimal, views};

verus! {

/// `select <items> from <parent>`
pub open spec fn select_sql(parent: Seq<char>, items: Seq<Seq<char>>) -> Seq<char> {
    "select "@ + join(items, ", "@) + " from "@ + parent
}

/// `select * from <parent>`, then `ORDER BY` the given orderings if there are
/// any, then `LIMIT` if one is given.
pub open spec fn sort_sql(parent: Seq<char>, order: Seq<Seq<char>>, limit: Option<i32>) -> Seq<char> {
    "select * from "@ + parent
        + (if order.len() == 0 { Seq::empty() } else { " ORDER BY "@ + join(order, ", "@) })
        + match limit { None => Seq::empty(), Some(l) => " LIMIT "@ + signed_decimal(l as int) }
}

/// `select <aggregates and groups> from <parent> [group by <groups>]`
pub open spec fn aggregate_sql(parent: Seq<char>, aggr_items: Seq<Seq<char>>, group_sqls: Seq<Seq<char>>) -> Seq<char> {
    if group_sqls.len() == 0 {
        "select "@ + join(aggr_items, ", "@) + " from "@ + parent
    } else {
        "select "@ + join(aggr_items, ", "@) + " from "@ + parent + " group by "@ + join(group_sqls, ", "@)
    }
}

/// `select * from <parent> where <predicate>`
pub open spec fn filter_sql(parent: Seq<char>, predicate: Seq<char>) -> Seq<char> {
    "select * from "@ + parent + " where "@ + predicate
}

/// `select * from <parent> LIMIT <limit>`
pub open spec fn limit_sql(parent: Seq<char>, limit: i32) -> Seq<char> {
    "select * from "@ + parent + " LIMIT "@ + signed_decimal(limit as int)
}

impl SqlDataFrame {
    /// Selects the given expressions: each wildcard keeps the frame's columns
    /// as they are, each other expression gives a nullable column of its name
    /// and type.
    pub fn select(&self, exprs: &Vec<CompiledExpr>) -> (res: Result<SqlDataFrame, SqlError>)
        ensures
            frame_result_matches(res, chain_step(
                self@,
                select_sql(parent_of(self@), items_of(exprs@)),
                output_fields(self@.columns, exprs@),
            )),
    {
        let parent = self.parent_name();
        let csv = join_strings(&items(exprs), ", ");
        let mut sql = String::new();
        sql.append("select ");
        sql.append(csv.as_str());
        sql.append(" from ");
        sql.append(parent.as_str());
        let columns = make_new_schema_from_exprs(self.schema(), exprs);
        assert(sql@ =~= select_sql(parent_of(self@), items_of(exprs@)));
        self.chain_query_str(sql.as_str(), columns)
    }

    /// Selects the given items (select-list texts); the result has the given
    /// columns.
    pub fn select_items(&self, items: &Vec<String>, columns: Vec<Field>) -> (res: Result<SqlDataFrame, SqlError>)
        ensures
            frame_result_matches(res, chain_step(
                self@,
                select_sql(parent_of(self@), views(items@)),
                fields_view(columns@),
            )),
    {
        let parent = self.parent_name();
        let csv = join_strings(items, ", ");
        let mut sql = String::new();
        sql.append("select ");
        sql.append(csv.as_str());
        sql.append(" from ");
        sql.append(parent.as_str());
        assert(sql@ =~= select_sql(parent_of(self@), views(items@)));
        self.chain_query_str(sql.as_str(), columns)
    }

    /// Orders the rows by the given orderings (SQL ordering expressions),
    /// keeping at most `limit` rows if a limit is given.
    pub fn sort(&self, order: &Vec<String>, limit: Option<i32>) -> (res: Result<SqlDataFrame, SqlError>)
        ensures
            frame_result_matches(res, chain_step(
                self@,
                sort_sql(parent_of(self@), views(order@), limit),
                self@.columns,
            )),
    {
        let parent = self.parent_name();
        let mut sql = String::new();
        sql.append("select * from ");
        sql.append(parent.as_str());
        if order.len() > 0 {
            sql.append(" ORDER BY ");
            let csv = join_strings(order, ", ");
            sql.append(csv.as_str());
        }
        match limit {
            Some(l) => {
                sql.append(" LIMIT ");
                append_signed_decimal(&mut sql, l as i64);
            },
            None => {},
        }
        assert(sql@ =~= sort_sql(parent_of(self@), views(order@), limit));
        self.chain_query_str(sql.as_str(), copy_fields(self.schema()))
    }

    /// Groups by `group_expr` and computes `aggr_expr`; the result has the
    /// columns of the aggregates followed by those of the groups, nullable and
    /// of the expressions' types.
    pub fn aggregate(&self, group_expr: &Vec<CompiledExpr>, aggr_expr: &Vec<CompiledExpr>) -> (res: Result<SqlDataFrame, SqlError>)
        ensures
            frame_result_matches(res, chain_step(
                self@,
                aggregate_sql(parent_of(self@), items_of(aggr_expr@ + group_expr@), sqls_of(group_expr@)),
                output_fields(self@.columns, aggr_expr@ + group_expr@),
            )),
    {
        let parent = self.parent_name();
        let mut all_aggr: Vec<CompiledExpr> = Vec::new();
        let mut i: usize = 0;
        while i < aggr_expr.len()
            invariant
                i <= aggr_expr@.len(),
                all_aggr@.len() == i,
                forall|j: int| 0 <= j < i ==> #[trigger] all_aggr@[j] == aggr_expr@[j],
            decreases aggr_expr@.len() - i,
        {
            all_aggr.push(copy_expr(&aggr_expr[i]));
            i = i + 1;
        }
        let mut i: usize = 0;
        while i < group_expr.len()
            invariant
                i <= group_expr@.len(),
                all_aggr@.len() == aggr_expr@.len() + i,
                forall|j: int| 0 <= j < aggr_expr@.len() ==> #[trigger] all_aggr@[j] == aggr_expr@[j],
                forall|j: int| 0 <= j < i ==> #[trigger] all_aggr@[aggr_expr@.len() + j] == group_expr@[j],
            decreases group_expr@.len() - i,
        {
            all_aggr.push(copy_expr(&group_expr[i]));
            i = i + 1;
        }
        assert forall|k: int| 0 <= k < all_aggr@.len() implies #[trigger] all_aggr@[k] == (aggr_expr@ + group_expr@)[k] by {
            if k >= aggr_expr@.len() {
                let m = k - aggr_expr@.len();
                assert(all_aggr@[aggr_expr@.len() + m] == group_expr@[m]);
            }
        }
        assert(all_aggr@ =~= aggr_expr@ + group_expr@);
        let aggr_csv = join_strings(&items(&all_aggr), ", ");
        let mut sql = String::new();
        sql.append("select ");
        sql.append(aggr_csv.as_str());
        sql.append(" from ");
        sql.append(parent.as_str());
        if group_expr.len() > 0 {
            sql.append(" group by ");
            let group_csv = join_strings(&sqls(group_expr), ", ");
            sql.append(group_csv.as_str());
        }
        assert(sql@ =~= aggregate_sql(parent_of(self@), items_of(aggr_expr@ + group_expr@), sqls_of(group_expr@)));
        let columns = make_new_schema_from_exprs(self.schema(), &all_aggr);
        self.chain_query_str(sql.as_str(), columns)
    }

    /// The query `select * from <parent>`, parsed in the frame's dialect.
    pub fn make_select_star(&self) -> (res: Result<String, SqlError>)
        ensures
            result_matches_outcome(res, query_outcome(self@.dialect.parser_dialect, "select * from "@ + parent_of(self@))),
    {
        let parent = self.parent_name();
        let mut sql = String::new();
        sql.append("select * from ");
        sql.append(parent.as_str());
        parse_sql_query(sql.as_str(), self.dialect().parser_dialect)
    }

    /// Keeps the rows for which `predicate` (a SQL expression) holds; the
    /// schema is kept.
    pub fn filter(&self, predicate: &str) -> (res: Result<SqlDataFrame, SqlError>)
        ensures
            frame_result_matches(res, chain_step(
                self@,
                filter_sql(parent_of(self@), predicate@),
                self@.columns,
            )),
    {
        let parent = self.parent_name();
        let mut sql = String::new();
        sql.append("select * from ");
        sql.append(parent.as_str());
        sql.append(" where ");
        sql.append(predicate);
        assert(sql@ =~= filter_sql(parent_of(self@), predicate@));
        self.chain_query_str(sql.as_str(), copy_fields(self.schema()))
    }

    /// Keeps at most `limit` rows; the schema is kept.
    pub fn limit(&self, limit: i32) -> (res: Result<SqlDataFrame, SqlError>)
        ensures
            frame_result_matches(res, chain_step(
                self@,
                limit_sql(parent_of(self@), limit),
                self@.columns,
            )),
    {
        let parent = self.parent_name();
        let mut sql = String::new();
        sql.append("select * from ");
        sql.append(parent.as_str());
        sql.append(" LIMIT ");
        append_signed_decimal(&mut sql, limit as i64);
        assert(sql@ =~= limit_sql(parent_of(self@), limit));
        self.chain_query_str(sql.as_str(), copy_fields(self.schema()))
    }
}

/// A copy of a compiled expression.
pub fn copy_expr(e: &CompiledExpr) -> (res: CompiledExpr)
    ensures
        res == *e,
{
    CompiledExpr {
        sql: e.sql.clone(),
        item: e.item.clone(),
        data_type: e.data_type,
        output: match &e.output {
            crate::exprs::ColumnSpec::Wildcard => crate::exprs::ColumnSpec::Wildcard,
            crate::exprs::ColumnSpec::Named(n) => crate::exprs::ColumnSpec::Named(n.clone()),
        },
    }
}

} // verus!
