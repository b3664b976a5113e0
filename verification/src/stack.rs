//! Stacking a numeric column into start/stop intervals.
use vstd::prelude::*;
use crate::dialect::{append_quoted_ident, quote_ident, quoted_ident, Dialect, QuoteStyle};
use crate::render::{aliased, aliased_expr};
use crate::fold::{quote_all, quoted_all};
use crate::frame::{and_then, chain_step, frame_result_matches, parent_of, FrameView, SqlDataFrame, StepError};
use crate::schema::{copy_fields, field_names, fields_view, fields_without, fields_without_names, lookup_type, names_of, nullable_field, select_named, select_named_fields, type_of, DataType, Field};
use crate::ops::select_sql;
use crate::parse::SqlError;
use crate::text::{join, join_strings, views};

verus! {

/// How stacks are laid out.
#[derive(Clone, Copy, Debug, PartialEq, Eq, Structural)]
pub enum StackMode {
    /// Positive values stack up from zero, negative values down from zero.
    Zero,
    /// Stacks are centered on the middle of the largest stack.
    Center,
    /// Stacks are scaled to run from zero to one.
    Normalize,
}

/// The SQL a stack is built from.
#[derive(Debug)]
pub struct StackParts {
    numeric: String,
    window_item: String,
    start_item: String,
    stop_item: String,
    stack_item: String,
    total_item: String,
    cumulative_item: String,
    max_total_item: String,
}

/// The text of the SQL a stack is built from.
pub struct StackText {
    /// The stacked value as a number, nulls as zero.
    pub numeric: Seq<char>,
    /// Zero mode: the running sum of the value, aliased to the stop column.
    pub window_item: Seq<char>,
    /// The start of each interval, aliased to the start column.
    pub start_item: Seq<char>,
    /// Center and Normalize modes: the end of each interval, aliased to the
    /// stop column.
    pub stop_item: Seq<char>,
    /// Center and Normalize modes: the absolute value, aliased to `__stack`.
    pub stack_item: Seq<char>,
    /// Center and Normalize modes: the sum of `__stack`, aliased to `__total`.
    pub total_item: Seq<char>,
    /// Center and Normalize modes: the running sum of `__stack`, aliased to
    /// `_cumulative`.
    pub cumulative_item: Seq<char>,
    /// Center mode: the largest `__total`, aliased to `__max_total`.
    pub max_total_item: Seq<char>,
}

impl View for StackParts {
    type V = StackText;

    closed spec fn view(&self) -> StackText {
        StackText {
            numeric: self.numeric@,
            window_item: self.window_item@,
            start_item: self.start_item@,
            stop_item: self.stop_item@,
            stack_item: self.stack_item@,
            total_item: self.total_item@,
            cumulative_item: self.cumulative_item@,
            max_total_item: self.max_total_item@,
        }
    }
}

/// The value as a number with nulls as zero: `coalesce(<value>, 0.0)`.
pub open spec fn stack_numeric(value: Seq<char>) -> Seq<char> {
    "coalesce("@ + value + ", 0.0)"@
}

/// The window of a running sum: per group (the quoted group columns), in the
/// given order, from the first row of the group to the current row.
pub open spec fn running_window(groups: Seq<Seq<char>>, orderby: Seq<Seq<char>>) -> Seq<char> {
    "OVER ("@
        + (if groups.len() == 0 { Seq::empty() } else { "PARTITION BY "@ + join(groups, ", "@) + " "@ })
        + (if orderby.len() == 0 { Seq::empty() } else { "ORDER BY "@ + join(orderby, ", "@) + " "@ })
        + "ROWS BETWEEN UNBOUNDED PRECEDING AND CURRENT ROW)"@
}

/// Center mode: where an interval ends, `"_cumulative" + ("__max_total" -
/// "__total") / 2.0`: the running sum, shifted to center the stack on the
/// largest total.
pub open spec fn center_stop(style: QuoteStyle) -> Seq<char> {
    "("@ + quoted_ident("_cumulative"@, style) + " + (("@ + quoted_ident("__max_total"@, style) + " - "@
        + quoted_ident("__total"@, style) + ") / 2.0))"@
}

/// The SQL a stack of `value` (the compiled value of the stacked field) is
/// built from, per group of `groupby`, in the order of `orderby` (compiled
/// ordering expressions).
pub open spec fn stack_text(
    style: QuoteStyle, value: Seq<char>, orderby: Seq<Seq<char>>, groupby: Seq<Seq<char>>,
    start: Seq<char>, stop: Seq<char>, mode: StackMode,
) -> StackText {
    let q = |n: Seq<char>| quoted_ident(n, style);
    let numeric = stack_numeric(value);
    let groups = Seq::new(groupby.len(), |i: int| quoted_ident(groupby[i], style));
    let window = running_window(groups, orderby);
    StackText {
        numeric: numeric,
        window_item: aliased("sum("@ + numeric + ") "@ + window, stop, style),
        start_item: match mode {
            StackMode::Zero => aliased(q(stop) + " - "@ + numeric, start, style),
            StackMode::Center => aliased("("@ + center_stop(style) + " - "@ + q("__stack"@) + ")"@, start, style),
            StackMode::Normalize => aliased("CASE WHEN "@ + q("__total"@) + " = 0.0 THEN 0.0 ELSE ("@ + q("_cumulative"@)
                + " - "@ + q("__stack"@) + ") / "@ + q("__total"@) + " END"@, start, style),
        },
        stop_item: match mode {
            StackMode::Zero => q(stop),
            StackMode::Center => aliased(center_stop(style), stop, style),
            StackMode::Normalize => aliased("CASE WHEN "@ + q("__total"@) + " = 0.0 THEN 0.0 ELSE "@ + q("_cumulative"@)
                + " / "@ + q("__total"@) + " END"@, stop, style),
        },
        stack_item: aliased("abs("@ + numeric + ")"@, "__stack"@, style),
        total_item: aliased("sum("@ + q("__stack"@) + ")"@, "__total"@, style),
        cumulative_item: aliased("sum("@ + q("__stack"@) + ") "@ + window, "_cumulative"@, style),
        max_total_item: aliased("max("@ + q("__total"@) + ")"@, "__max_total"@, style),
    }
}

/// Zero mode: the running sums of non-negative and negative values, apart.
pub open spec fn stack_zero_sql(parent: Seq<char>, window_item: Seq<char>, numeric: Seq<char>) -> Seq<char> {
    "SELECT *, "@ + window_item + " from "@ + parent + " WHERE "@ + numeric + " >= 0 UNION ALL "@
        + "SELECT *, "@ + window_item + " from "@ + parent + " WHERE "@ + numeric + " < 0"@
}

/// The total of the stack values, overall or per group, joined onto every row.
pub open spec fn stack_total_sql(parent: Seq<char>, partition: Seq<Seq<char>>, total_item: Seq<char>) -> Seq<char> {
    if partition.len() == 0 {
        "SELECT * from "@ + parent + " CROSS JOIN (SELECT "@ + total_item + " from "@ + parent + ")"@
    } else {
        let p = join(partition, ", "@);
        "SELECT * FROM "@ + parent + " INNER JOIN (SELECT "@ + p + ", "@ + total_item + " from "@ + parent
            + " GROUP BY "@ + p + ") as __inner USING ("@ + p + ")"@
    }
}

/// Center mode: the largest total joined onto every row.
pub open spec fn stack_max_sql(parent: Seq<char>, max_total_item: Seq<char>) -> Seq<char> {
    "SELECT * from "@ + parent + " CROSS JOIN (SELECT "@ + max_total_item + " from "@ + parent + ") as _cross"@
}

/// The last step of every stack: the carried columns, then start and stop,
/// all nullable.
pub open spec fn stack_final_step(v: FrameView, base: FrameView, parts: StackText, start: Seq<char>, stop: Seq<char>, mode: StackMode) -> Result<FrameView, StepError> {
    let kept = names_of(fields_without(base.columns, seq![start, stop]));
    let stop_type = if mode == StackMode::Zero { type_of(v.columns, stop) } else { DataType::Float64 };
    chain_step(
        v,
        select_sql(parent_of(v), quoted_all(base.dialect, kept) + seq![parts.start_item, parts.stop_item]),
        select_named(v.columns, kept) + seq![nullable_field(start, DataType::Float64), nullable_field(stop, stop_type)],
    )
}

/// Center mode, from the frame with the running sums on.
pub open spec fn stack_center_tail(v3: FrameView, base: FrameView, parts: StackText, start: Seq<char>, stop: Seq<char>) -> Result<FrameView, StepError> {
    and_then(
        chain_step(v3, stack_max_sql(parent_of(v3), parts.max_total_item), v3.columns.push(nullable_field("__max_total"@, DataType::Float64))),
        |v4: FrameView| stack_final_step(v4, base, parts, start, stop, StackMode::Center),
    )
}

/// Center and Normalize modes, from the frame with the totals on.
pub open spec fn stack_scaled_tail(v2: FrameView, base: FrameView, parts: StackText, start: Seq<char>, stop: Seq<char>, mode: StackMode) -> Result<FrameView, StepError> {
    and_then(
        chain_step(v2, select_sql(parent_of(v2), seq!["*"@, parts.cumulative_item]), v2.columns.push(nullable_field("_cumulative"@, DataType::Float64))),
        |v3: FrameView| if mode == StackMode::Center {
            stack_center_tail(v3, base, parts, start, stop)
        } else {
            stack_final_step(v3, base, parts, start, stop, mode)
        },
    )
}

/// The frame a stack gives, or why it failed.
pub open spec fn stack_result(base: FrameView, parts: StackText, groupby: Seq<Seq<char>>, start: Seq<char>, stop: Seq<char>, mode: StackMode) -> Result<FrameView, StepError> {
    if mode == StackMode::Zero {
        and_then(
            chain_step(base, stack_zero_sql(parent_of(base), parts.window_item, parts.numeric), base.columns.push(nullable_field(stop, DataType::Float64))),
            |v1: FrameView| stack_final_step(v1, base, parts, start, stop, mode),
        )
    } else {
        and_then(
            chain_step(base, select_sql(parent_of(base), seq!["*"@, parts.stack_item]), base.columns.push(nullable_field("__stack"@, DataType::Float64))),
            |v1: FrameView| and_then(
                chain_step(v1, stack_total_sql(parent_of(v1), quoted_all(base.dialect, groupby), parts.total_item), v1.columns.push(nullable_field("__total"@, DataType::Float64))),
                |v2: FrameView| stack_scaled_tail(v2, base, parts, start, stop, mode),
            ),
        )
    }
}

/// The window of a running sum over the quoted group columns and the
/// orderings.
fn running_window_text(groups: &Vec<String>, orderby: &Vec<String>) -> (res: String)
    ensures
        res@ == running_window(views(groups@), views(orderby@)),
{
    let mut res = String::new();
    res.append("OVER (");
    if groups.len() > 0 {
        res.append("PARTITION BY ");
        let g = join_strings(groups, ", ");
        res.append(g.as_str());
        res.append(" ");
    }
    if orderby.len() > 0 {
        res.append("ORDER BY ");
        let o = join_strings(orderby, ", ");
        res.append(o.as_str());
        res.append(" ");
    }
    res.append("ROWS BETWEEN UNBOUNDED PRECEDING AND CURRENT ROW)");
    assert(res@ =~= running_window(views(groups@), views(orderby@)));
    res
}

/// Center mode: where an interval ends.
fn center_stop_text(style: QuoteStyle) -> (res: String)
    ensures
        res@ == center_stop(style),
{
    let mut res = String::new();
    res.append("(");
    append_quoted_ident(&mut res, "_cumulative", style);
    res.append(" + ((");
    append_quoted_ident(&mut res, "__max_total", style);
    res.append(" - ");
    append_quoted_ident(&mut res, "__total", style);
    res.append(") / 2.0))");
    assert(res@ =~= center_stop(style));
    res
}

/// The SQL a stack is built from.
fn stack_parts(
    d: &Dialect, value: &str, orderby: &Vec<String>, groupby: &Vec<String>, start: &str, stop: &str, mode: StackMode,
) -> (parts: StackParts)
    ensures
        parts@ == stack_text(d.quote_style, value@, views(orderby@), views(groupby@), start@, stop@, mode),
{
    let style = d.quote_style;
    let ghost t = stack_text(d.quote_style, value@, views(orderby@), views(groupby@), start@, stop@, mode);
    let mut numeric = String::new();
    numeric.append("coalesce(");
    numeric.append(value);
    numeric.append(", 0.0)");
    assert(numeric@ =~= t.numeric);
    let groups = quote_all(d, groupby);
    assert(views(groups@) =~= Seq::new(views(groupby@).len(), |i: int| quoted_ident(views(groupby@)[i], style)));
    let window = running_window_text(&groups, orderby);

    let mut sum_numeric = String::new();
    sum_numeric.append("sum(");
    sum_numeric.append(numeric.as_str());
    sum_numeric.append(") ");
    sum_numeric.append(window.as_str());
    let window_item = aliased_expr(sum_numeric.as_str(), stop, style);

    let q_stack = quote_ident("__stack", style);
    let q_total = quote_ident("__total", style);
    let q_cum = quote_ident("_cumulative", style);

    let (start_item, stop_item) = match mode {
        StackMode::Zero => {
            let mut e = quote_ident(stop, style);
            e.append(" - ");
            e.append(numeric.as_str());
            (aliased_expr(e.as_str(), start, style), quote_ident(stop, style))
        },
        StackMode::Center => {
            let first = center_stop_text(style);
            let mut e = String::new();
            e.append("(");
            e.append(first.as_str());
            e.append(" - ");
            e.append(q_stack.as_str());
            e.append(")");
            (aliased_expr(e.as_str(), start, style), aliased_expr(first.as_str(), stop, style))
        },
        StackMode::Normalize => {
            let mut a = String::new();
            a.append("CASE WHEN ");
            a.append(q_total.as_str());
            a.append(" = 0.0 THEN 0.0 ELSE (");
            a.append(q_cum.as_str());
            a.append(" - ");
            a.append(q_stack.as_str());
            a.append(") / ");
            a.append(q_total.as_str());
            a.append(" END");
            let mut b = String::new();
            b.append("CASE WHEN ");
            b.append(q_total.as_str());
            b.append(" = 0.0 THEN 0.0 ELSE ");
            b.append(q_cum.as_str());
            b.append(" / ");
            b.append(q_total.as_str());
            b.append(" END");
            (aliased_expr(a.as_str(), start, style), aliased_expr(b.as_str(), stop, style))
        },
    };

    let mut abs_numeric = String::new();
    abs_numeric.append("abs(");
    abs_numeric.append(numeric.as_str());
    abs_numeric.append(")");
    let stack_item = aliased_expr(abs_numeric.as_str(), "__stack", style);

    let mut sum_stack = String::new();
    sum_stack.append("sum(");
    sum_stack.append(q_stack.as_str());
    sum_stack.append(")");
    let total_item = aliased_expr(sum_stack.as_str(), "__total", style);

    let mut running_stack = String::new();
    running_stack.append("sum(");
    running_stack.append(q_stack.as_str());
    running_stack.append(") ");
    running_stack.append(window.as_str());
    let cumulative_item = aliased_expr(running_stack.as_str(), "_cumulative", style);

    let mut max_total = String::new();
    max_total.append("max(");
    max_total.append(q_total.as_str());
    max_total.append(")");
    let max_total_item = aliased_expr(max_total.as_str(), "__max_total", style);

    proof {
        reveal_strlit("__stack");
        reveal_strlit("__total");
        reveal_strlit("_cumulative");
        reveal_strlit("__max_total");
        assert(window_item@ =~= t.window_item);
        assert(start_item@ =~= t.start_item);
        assert(stop_item@ =~= t.stop_item);
        assert(stack_item@ =~= t.stack_item);
        assert(total_item@ =~= t.total_item);
        assert(cumulative_item@ =~= t.cumulative_item);
        assert(max_total_item@ =~= t.max_total_item);
    }
    StackParts { numeric, window_item, start_item, stop_item, stack_item, total_item, cumulative_item, max_total_item }
}

impl SqlDataFrame {
    /// The last step of a stack: the columns of `base` other than start and
    /// stop, then the start and stop items.
    fn stack_final(&self, base: &SqlDataFrame, parts: &StackParts, start_field: &str, stop_field: &str, mode: StackMode) -> (res: Result<SqlDataFrame, SqlError>)
        ensures
            frame_result_matches(res, stack_final_step(self@, base@, parts@, start_field@, stop_field@, mode)),
    {
        let d = base.dialect();
        let mut shadowed: Vec<String> = Vec::new();
        shadowed.push(start_field.to_string());
        shadowed.push(stop_field.to_string());
        assert(views(shadowed@) =~= seq![start_field@, stop_field@]);
        let kept_fields = fields_without_names(base.schema(), &shadowed);
        let kept = field_names(&kept_fields);
        let mut items = quote_all(d, &kept);
        let ghost kept_items = views(items@);
        items.push(parts.start_item.clone());
        items.push(parts.stop_item.clone());
        let stop_type = if mode == StackMode::Zero { lookup_type(self.schema(), stop_field) } else { DataType::Float64 };
        let mut columns = select_named_fields(self.schema(), &kept);
        let ghost kv = fields_view(columns@);
        columns.push(Field { name: start_field.to_string(), data_type: DataType::Float64, nullable: true });
        columns.push(Field { name: stop_field.to_string(), data_type: stop_type, nullable: true });
        assert(fields_view(columns@) =~= kv + seq![nullable_field(start_field@, DataType::Float64), nullable_field(stop_field@, stop_type)]);
        assert(views(items@) =~= kept_items + seq![parts@.start_item, parts@.stop_item]);
        self.select_items(&items, columns)
    }

    /// The frame's columns and one more nullable column.
    fn columns_plus(&self, name: &str, data_type: DataType) -> (res: Vec<Field>)
        ensures
            fields_view(res@) == self@.columns.push(nullable_field(name@, data_type)),
    {
        let mut columns = copy_fields(self.schema());
        let ghost before = fields_view(columns@);
        columns.push(Field { name: name.to_string(), data_type, nullable: true });
        assert(fields_view(columns@) =~= before.push(nullable_field(name@, data_type)));
        columns
    }

    /// Stacks `value` (the compiled value of the stacked field, as a number)
    /// of each row onto those before it in its group (rows of the same
    /// `groupby` values, in the order of `orderby`, compiled ordering
    /// expressions), writing each row's interval to `start_field` and
    /// `stop_field` (both double precision).
    pub fn stack(&self, value: &str, orderby: &Vec<String>, groupby: &Vec<String>, start_field: &str, stop_field: &str, mode: StackMode) -> (res: Result<SqlDataFrame, SqlError>)
        ensures
            frame_result_matches(res, stack_result(
                self@,
                stack_text(self@.dialect.quote_style, value@, views(orderby@), views(groupby@), start_field@, stop_field@, mode),
                views(groupby@),
                start_field@,
                stop_field@,
                mode,
            )),
    {
        let d = self.dialect();
        let owned = stack_parts(d, value, orderby, groupby, start_field, stop_field, mode);
        let parts = &owned;
        if mode == StackMode::Zero {
            let parent = self.parent_name();
            let mut sql = String::new();
            sql.append("SELECT *, ");
            sql.append(parts.window_item.as_str());
            sql.append(" from ");
            sql.append(parent.as_str());
            sql.append(" WHERE ");
            sql.append(parts.numeric.as_str());
            sql.append(" >= 0 UNION ALL ");
            sql.append("SELECT *, ");
            sql.append(parts.window_item.as_str());
            sql.append(" from ");
            sql.append(parent.as_str());
            sql.append(" WHERE ");
            sql.append(parts.numeric.as_str());
            sql.append(" < 0");
            assert(sql@ =~= stack_zero_sql(parent_of(self@), parts@.window_item, parts@.numeric));
            let df1 = self.chain_query_str(sql.as_str(), self.columns_plus(stop_field, DataType::Float64))?;
            return df1.stack_final(self, parts, start_field, stop_field, mode);
        }
        let mut first_items: Vec<String> = Vec::new();
        first_items.push("*".to_string());
        first_items.push(parts.stack_item.clone());
        assert(views(first_items@) =~= seq!["*"@, parts@.stack_item]);
        let df1 = self.select_items(&first_items, self.columns_plus("__stack", DataType::Float64))?;

        let parent1 = df1.parent_name();
        let mut sql = String::new();
        if groupby.len() == 0 {
            sql.append("SELECT * from ");
            sql.append(parent1.as_str());
            sql.append(" CROSS JOIN (SELECT ");
            sql.append(parts.total_item.as_str());
            sql.append(" from ");
            sql.append(parent1.as_str());
            sql.append(")");
        } else {
            let p = join_strings(&quote_all(d, groupby), ", ");
            sql.append("SELECT * FROM ");
            sql.append(parent1.as_str());
            sql.append(" INNER JOIN (SELECT ");
            sql.append(p.as_str());
            sql.append(", ");
            sql.append(parts.total_item.as_str());
            sql.append(" from ");
            sql.append(parent1.as_str());
            sql.append(" GROUP BY ");
            sql.append(p.as_str());
            sql.append(") as __inner USING (");
            sql.append(p.as_str());
            sql.append(")");
        }
        assert(sql@ =~= stack_total_sql(parent_of(df1@), quoted_all(self@.dialect, views(groupby@)), parts@.total_item));
        let df2 = df1.chain_query_str(sql.as_str(), df1.columns_plus("__total", DataType::Float64))?;

        let mut cumulative_items: Vec<String> = Vec::new();
        cumulative_items.push("*".to_string());
        cumulative_items.push(parts.cumulative_item.clone());
        assert(views(cumulative_items@) =~= seq!["*"@, parts@.cumulative_item]);
        let df3 = df2.select_items(&cumulative_items, df2.columns_plus("_cumulative", DataType::Float64))?;

        if mode == StackMode::Center {
            let parent3 = df3.parent_name();
            let mut sql = String::new();
            sql.append("SELECT * from ");
            sql.append(parent3.as_str());
            sql.append(" CROSS JOIN (SELECT ");
            sql.append(parts.max_total_item.as_str());
            sql.append(" from ");
            sql.append(parent3.as_str());
            sql.append(") as _cross");
            assert(sql@ =~= stack_max_sql(parent_of(df3@), parts@.max_total_item));
            let df4 = df3.chain_query_str(sql.as_str(), df3.columns_plus("__max_total", DataType::Float64))?;
            df4.stack_final(self, parts, start_field, stop_field, mode)
        } else {
            df3.stack_final(self, parts, start_field, stop_field, mode)
        }
    }
}

} // verus!
