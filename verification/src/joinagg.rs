//! Join aggregation: aggregates computed per group and joined back onto every row.
use vstd::prelude::*;
use crate::dialect::Dialect;
use crate::exprs::{display_name, items, items_of, output_fields, sqls, sqls_of, make_new_schema_from_exprs, CompiledExpr, ColumnSpec};
use crate::schema::{all_nullable, field_names, fields_view, fields_without, fields_without_names, make_nullable, names_of};
use crate::frame::{chain_step, frame_result_matches, parent_of, SqlDataFrame};
use crate::parse::SqlError;
use crate::render::{aliased, aliased_column, column_ref};
use crate::text::{join, join_strings, views};

verus! {

/// The display names of the aggregates.
pub open spec fn aggregate_names(aggr: Seq<CompiledExpr>) -> Seq<Seq<char>> {
    Seq::new(aggr.len(), |i: int| display_name(aggr[i].output@))
}

/// The relation that a qualified reference names, when the dialect qualifies.
pub open spec fn qualifier(qualify: bool, relation: Seq<char>) -> Option<Seq<char>> {
    if qualify { Some(relation) } else { None }
}

/// Each name as a column, qualified by `relation` when the dialect asks for
/// it, aliased to itself.
pub open spec fn self_aliased_columns(d: Dialect, relation: Seq<char>, names: Seq<Seq<char>>) -> Seq<Seq<char>> {
    Seq::new(names.len(), |i: int| aliased(
        column_ref(qualifier(d.joinaggregate_fully_qualified, relation), names[i], d.quote_style),
        names[i],
        d.quote_style,
    ))
}

/// The SQL text of a join aggregation.
pub open spec fn joinaggregate_sql(
    parent: Seq<char>,
    input_items: Seq<Seq<char>>,
    new_items: Seq<Seq<char>>,
    aggr_items: Seq<Seq<char>>,
    group_sqls: Seq<Seq<char>>,
) -> Seq<char> {
    let inner = parent + "_inner"@;
    let head = "select "@ + join(input_items, ", "@) + ", "@ + join(new_items, ", "@) + " from "@ + parent;
    if group_sqls.len() == 0 {
        head + " CROSS JOIN (select "@ + join(aggr_items, ", "@) + " from "@ + parent + ") as "@ + inner
    } else {
        let groups = join(group_sqls, ", "@);
        head + " LEFT OUTER JOIN (select "@ + join(aggr_items, ", "@) + ", "@ + groups + " from "@ + parent
            + " group by "@ + groups + ") as "@ + inner + " USING ("@ + groups + ")"@
    }
}

/// The SQL text of a join aggregation of frame `v`.
pub open spec fn joinaggregate_frame_sql(v: crate::frame::FrameView, group: Seq<CompiledExpr>, aggr: Seq<CompiledExpr>) -> Seq<char> {
    let parent = parent_of(v);
    let kept = names_of(fields_without(v.columns, aggregate_names(aggr)));
    joinaggregate_sql(
        parent,
        self_aliased_columns(v.dialect, parent, kept),
        self_aliased_columns(v.dialect, parent + "_inner"@, aggregate_names(aggr)),
        items_of(aggr),
        sqls_of(group),
    )
}

/// Whether `names` holds `name`.
pub fn contains_string(names: &Vec<String>, name: &String) -> (res: bool)
    ensures
        res == views(names@).contains(name@),
{
    let mut i: usize = 0;
    while i < names.len()
        invariant
            i <= names@.len(),
            forall|j: int| 0 <= j < i ==> names@[j]@ != name@,
        decreases names@.len() - i,
    {
        if names[i] == *name {
            assert(views(names@)[i as int] == name@);
            return true;
        }
        i = i + 1;
    }
    assert forall|j: int| 0 <= j < views(names@).len() implies views(names@)[j] != name@ by {
        assert(names@[j]@ != name@);
    }
    false
}

/// The display names of the aggregates.
pub fn display_names(aggr: &Vec<CompiledExpr>) -> (res: Vec<String>)
    ensures
        views(res@) == aggregate_names(aggr@),
{
    let mut res: Vec<String> = Vec::new();
    let mut i: usize = 0;
    while i < aggr.len()
        invariant
            i <= aggr@.len(),
            res@.len() == i,
            forall|j: int| 0 <= j < i ==> #[trigger] res@[j]@ == display_name(aggr@[j].output@),
        decreases aggr@.len() - i,
    {
        let name = match &aggr[i].output {
            ColumnSpec::Wildcard => "*".to_string(),
            ColumnSpec::Named(n) => n.clone(),
        };
        res.push(name);
        i = i + 1;
    }
    assert(views(res@) =~= aggregate_names(aggr@));
    res
}

/// Each name as a column qualified by `relation` (when the dialect asks for
/// it) and aliased to itself.
pub fn self_aliased(d: &Dialect, relation: &str, names: &Vec<String>) -> (res: Vec<String>)
    ensures
        views(res@) == self_aliased_columns(*d, relation@, views(names@)),
{
    let mut res: Vec<String> = Vec::new();
    let mut i: usize = 0;
    while i < names.len()
        invariant
            i <= names@.len(),
            res@.len() == i,
            forall|j: int| 0 <= j < i ==> #[trigger] res@[j]@ == aliased(
                column_ref(qualifier(d.joinaggregate_fully_qualified, relation@), names@[j]@, d.quote_style),
                names@[j]@,
                d.quote_style,
            ),
        decreases names@.len() - i,
    {
        let rel: Option<&str> = if d.joinaggregate_fully_qualified { Some(relation) } else { None };
        let item = aliased_column(rel, names[i].as_str(), names[i].as_str(), d.quote_style);
        res.push(item);
        i = i + 1;
    }
    assert(views(res@) =~= self_aliased_columns(*d, relation@, views(names@)));
    res
}

impl SqlDataFrame {
    /// Computes the aggregates `aggr_expr` per group of `group_expr` and joins
    /// them onto every row of its group; columns shadowed by an aggregate's
    /// name are replaced. Every result column is nullable; the kept columns
    /// keep their types and the aggregates have theirs.
    pub fn joinaggregate(&self, group_expr: &Vec<CompiledExpr>, aggr_expr: &Vec<CompiledExpr>) -> (res: Result<SqlDataFrame, SqlError>)
        ensures
            frame_result_matches(res, chain_step(
                self@,
                joinaggregate_frame_sql(self@, group_expr@, aggr_expr@),
                all_nullable(fields_without(self@.columns, aggregate_names(aggr_expr@))) + output_fields(self@.columns, aggr_expr@),
            )),
    {
        let parent = self.parent_name();
        let mut inner = parent.clone();
        inner.append("_inner");
        let names = display_names(aggr_expr);
        let kept_fields = fields_without_names(self.schema(), &names);
        let kept = field_names(&kept_fields);
        let d = self.dialect();
        let input_csv = join_strings(&self_aliased(d, parent.as_str(), &kept), ", ");
        let new_csv = join_strings(&self_aliased(d, inner.as_str(), &names), ", ");
        let aggr_csv = join_strings(&items(aggr_expr), ", ");
        let mut sql = String::new();
        sql.append("select ");
        sql.append(input_csv.as_str());
        sql.append(", ");
        sql.append(new_csv.as_str());
        sql.append(" from ");
        sql.append(parent.as_str());
        if group_expr.len() == 0 {
            sql.append(" CROSS JOIN (select ");
            sql.append(aggr_csv.as_str());
            sql.append(" from ");
            sql.append(parent.as_str());
            sql.append(") as ");
            sql.append(inner.as_str());
        } else {
            let group_csv = join_strings(&sqls(group_expr), ", ");
            sql.append(" LEFT OUTER JOIN (select ");
            sql.append(aggr_csv.as_str());
            sql.append(", ");
            sql.append(group_csv.as_str());
            sql.append(" from ");
            sql.append(parent.as_str());
            sql.append(" group by ");
            sql.append(group_csv.as_str());
            sql.append(") as ");
            sql.append(inner.as_str());
            sql.append(" USING (");
            sql.append(group_csv.as_str());
            sql.append(")");
        }
        assert(sql@ =~= joinaggregate_frame_sql(self@, group_expr@, aggr_expr@));
        let mut columns = make_nullable(&kept_fields);
        let mut aggr_columns = make_new_schema_from_exprs(self.schema(), aggr_expr);
        let ghost kv = fields_view(columns@);
        let ghost av = fields_view(aggr_columns@);
        columns.append(&mut aggr_columns);
        assert(fields_view(columns@) =~= kv + av);
        self.chain_query_str(sql.as_str(), columns)
    }
}

} // verus!
