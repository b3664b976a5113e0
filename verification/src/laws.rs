//! Properties of the query chain that hold across operations.
use vstd::prelude::*;
use crate::frame::{chain_step, extend, parent_of, FrameView};
use crate::fingerprint::query_fingerprint;
use crate::functions::{datafusion_extra_functions, insert, insert_all};
use crate::naming::{cte_name, lemma_cte_names_distinct};
use crate::parse::{query_outcome, QueryOutcome};
use crate::project::{escapes_next, project_fields, unescaped, unescaped_prefix};
use crate::exprs::{output_fields, ColumnSpec, CompiledExpr};
use crate::schema::{nullable_field, FieldView};
use crate::query::{chain_ctes, chain_query_view, chain_sql, query_text};
use crate::dialect::quoted_ident;
use crate::fold::quoted_all;
use crate::ops::{aggregate_sql, select_sql, sort_sql};
use crate::joinagg::joinaggregate_sql;
use crate::stack::{stack_result, stack_scaled_tail, stack_text, StackMode, StackText};
use crate::render::{aliased, column_ref};
use crate::dialect::Dialect;
use crate::dialect::QuoteStyle;
use crate::impute::{grouped_impute_item, impute_grouped_sql};
use crate::schema::{fields_without, names_of, select_named, type_of, DataType};
use crate::stack::stack_final_step;
use crate::text::{join, signed_decimal};

verus! {

/// Chaining a query onto a frame keeps the frame's whole chain: the common
/// table expressions of the longer chain are those of the shorter one,
/// followed by the frame's last query under the name `parent_name` gives, and
/// the new query is the body.
pub proof fn law_chain_keeps_earlier_queries(v: FrameView, query: Seq<char>, columns: Seq<FieldView>)
    requires
        v.queries.len() >= 1,
    ensures
        chain_query_view(v.prefix, extend(v, query, columns).queries).with
            == chain_ctes(v.prefix, v.queries).push((parent_of(v), v.queries.last())),
        chain_query_view(v.prefix, extend(v, query, columns).queries).body == query,
{
    let w = extend(v, query, columns);
    assert(chain_ctes(v.prefix, w.queries) =~= chain_ctes(v.prefix, v.queries).push((parent_of(v), v.queries.last())));
}

/// The name that a chained query reads from belongs to the frame's last query
/// and to no other query of the chain.
pub proof fn law_parent_name_is_unique(v: FrameView, query: Seq<char>, columns: Seq<FieldView>)
    requires
        v.queries.len() >= 1,
    ensures
        ({
            let ctes = chain_ctes(v.prefix, extend(v, query, columns).queries);
            &&& ctes.len() == v.queries.len()
            &&& ctes[v.queries.len() - 1] == (parent_of(v), v.queries.last())
            &&& forall|j: int| 0 <= j < ctes.len() && j != v.queries.len() - 1 ==> #[trigger] ctes[j].0 != parent_of(v)
        }),
{
    let ctes = chain_ctes(v.prefix, extend(v, query, columns).queries);
    assert forall|j: int| 0 <= j < ctes.len() && j != v.queries.len() - 1 implies #[trigger] ctes[j].0 != parent_of(v) by {
        lemma_cte_names_distinct(v.prefix, j as nat, (v.queries.len() - 1) as nat);
    }
}

/// No two common table expressions of a chain share a name.
pub proof fn law_cte_names_distinct(prefix: Seq<char>, queries: Seq<Seq<char>>)
    requires
        queries.len() >= 1,
    ensures
        forall|i: int, j: int| 0 <= i < j < chain_ctes(prefix, queries).len()
            ==> #[trigger] chain_ctes(prefix, queries)[i].0 != #[trigger] chain_ctes(prefix, queries)[j].0,
{
    assert forall|i: int, j: int| 0 <= i < j < chain_ctes(prefix, queries).len()
        implies #[trigger] chain_ctes(prefix, queries)[i].0 != #[trigger] chain_ctes(prefix, queries)[j].0 by {
        lemma_cte_names_distinct(prefix, i as nat, j as nat);
    }
}

/// The query of a frame of one query is that query itself, with no common
/// table expressions.
pub proof fn law_single_query(prefix: Seq<char>, query: Seq<char>)
    ensures
        chain_query_view(prefix, seq![query]).with.len() == 0,
        chain_sql(prefix, seq![query]) == query,
{
    assert(chain_ctes(prefix, seq![query]).len() == 0);
}

/// A step that succeeds adds exactly one query to the end of the chain, the
/// text the parser printed back, and keeps the earlier queries, the prefix,
/// the dialect and the connection; the new columns are the step's columns.
pub proof fn law_step_appends_one_query(v: FrameView, sql: Seq<char>, columns: Seq<FieldView>)
    requires
        chain_step(v, sql, columns) is Ok,
    ensures
        ({
            let w = chain_step(v, sql, columns)->Ok_0;
            &&& w.queries.len() == v.queries.len() + 1
            &&& w.queries.take(v.queries.len() as int) == v.queries
            &&& query_outcome(v.dialect.parser_dialect, sql) == QueryOutcome::Query(w.queries.last())
            &&& w.prefix == v.prefix
            &&& w.dialect == v.dialect
            &&& w.conn_id == v.conn_id
            &&& w.columns == columns
        }),
{
    let w = chain_step(v, sql, columns)->Ok_0;
    assert(w.queries.take(v.queries.len() as int) =~= v.queries);
}

/// Whether no name occurs twice in `names`.
pub open spec fn no_duplicates(names: Seq<Seq<char>>) -> bool {
    forall|i: int, j: int| 0 <= i < j < names.len() ==> #[trigger] names[i] != #[trigger] names[j]
}

proof fn lemma_insert_keeps_set(set: Seq<Seq<char>>, name: Seq<char>)
    requires
        no_duplicates(set),
    ensures
        no_duplicates(insert(set, name)),
        forall|x: Seq<char>| #[trigger] insert(set, name).contains(x) <==> set.contains(x) || x == name,
        insert(set, name).take(set.len() as int) == set,
        insert(set, name).len() >= set.len(),
{
    if !set.contains(name) {
        let r = set.push(name);
        assert forall|i: int, j: int| 0 <= i < j < r.len() implies #[trigger] r[i] != #[trigger] r[j] by {
            if j == set.len() {
                assert(set[i] == r[i]);
            } else {
                assert(set[i] != set[j]);
            }
        }
        assert forall|x: Seq<char>| #[trigger] r.contains(x) <==> set.contains(x) || x == name by {
            if r.contains(x) {
                let k = choose|k: int| 0 <= k < r.len() && r[k] == x;
                if k < set.len() {
                    assert(set[k] == x);
                }
            }
            if set.contains(x) {
                let k = choose|k: int| 0 <= k < set.len() && set[k] == x;
                assert(r[k] == x);
            }
            if x == name {
                assert(r[set.len() as int] == x);
            }
        }
        assert(r.take(set.len() as int) =~= set);
    } else {
        assert(set.take(set.len() as int) =~= set);
    }
}

proof fn lemma_insert_all_keeps_set(set: Seq<Seq<char>>, names: Seq<Seq<char>>)
    requires
        no_duplicates(set),
    ensures
        no_duplicates(insert_all(set, names)),
        forall|x: Seq<char>| #[trigger] insert_all(set, names).contains(x) <==> set.contains(x) || names.contains(x),
        insert_all(set, names).take(set.len() as int) == set,
        insert_all(set, names).len() >= set.len(),
    decreases names.len(),
{
    if names.len() == 0 {
        assert(set.take(set.len() as int) =~= set);
    } else {
        let rest = names.drop_last();
        lemma_insert_all_keeps_set(set, rest);
        let mid = insert_all(set, rest);
        lemma_insert_keeps_set(mid, names.last());
        let r = insert_all(set, names);
        assert forall|x: Seq<char>| #[trigger] r.contains(x) <==> set.contains(x) || names.contains(x) by {
            if rest.contains(x) {
                let k = choose|k: int| 0 <= k < rest.len() && rest[k] == x;
                assert(names[k] == x);
            }
            if names.contains(x) && x != names.last() {
                let k = choose|k: int| 0 <= k < names.len() && names[k] == x;
                assert(k < names.len() - 1);
                assert(rest[k] == x);
            }
            if x == names.last() {
                assert(names[names.len() - 1] == x);
            }
        }
        assert(r.take(mid.len() as int) == mid);
        assert(mid.take(set.len() as int) == set);
        assert(r.take(set.len() as int) =~= mid.take(set.len() as int));
    }
}

/// DataFusion's dialect knows exactly the functions of the base dialect and
/// the DataFusion functions, each once, with the base functions first and in
/// their order.
pub proof fn law_datafusion_functions(base: Seq<Seq<char>>)
    requires
        no_duplicates(base),
    ensures
        no_duplicates(insert_all(base, datafusion_extra_functions())),
        forall|x: Seq<char>| #[trigger] insert_all(base, datafusion_extra_functions()).contains(x)
            <==> base.contains(x) || datafusion_extra_functions().contains(x),
        insert_all(base, datafusion_extra_functions()).take(base.len() as int) == base,
{
    lemma_insert_all_keeps_set(base, datafusion_extra_functions());
}

proof fn lemma_unescaped_prefix_plain(s: Seq<char>, n: nat)
    requires
        n <= s.len(),
        !s.contains('\\'),
    ensures
        unescaped_prefix(s, n) == s.take(n as int),
    decreases n,
{
    if n > 0 {
        lemma_unescaped_prefix_plain(s, (n - 1) as nat);
        if escapes_next(s, n - 1) {
            assert(s[n - 1] == '\\');
        }
        assert(s.take(n as int) =~= s.take(n - 1) + seq![s[n - 1]]);
    }
}

/// A field name without backslashes is its own unescaped name.
pub proof fn law_plain_field_unescaped(s: Seq<char>)
    requires
        !s.contains('\\'),
    ensures
        unescaped(s) == s,
{
    lemma_unescaped_prefix_plain(s, s.len());
    assert(s.take(s.len() as int) =~= s);
}

/// Every field that the project transform keeps is a column of the frame.
pub proof fn law_project_keeps_only_columns(fields: Seq<Seq<char>>, columns: Seq<Seq<char>>)
    ensures
        forall|x: Seq<char>| #[trigger] project_fields(fields, columns).contains(x) ==> columns.contains(x),
    decreases fields.len(),
{
    if fields.len() > 0 {
        law_project_keeps_only_columns(fields.drop_last(), columns);
        let r = project_fields(fields, columns);
        let prev = project_fields(fields.drop_last(), columns);
        assert forall|x: Seq<char>| #[trigger] r.contains(x) implies columns.contains(x) by {
            let k = choose|k: int| 0 <= k < r.len() && r[k] == x;
            let u = unescaped(fields.last());
            if columns.contains(u) {
                assert(r == prev + seq![u]);
                if k < prev.len() {
                    assert(prev[k] == x);
                    assert(prev.contains(x));
                } else {
                    assert(x == u);
                }
            } else {
                assert(r == prev + Seq::<Seq<char>>::empty());
                assert(r =~= prev);
                assert(prev[k] == x);
                assert(prev.contains(x));
            }
        }
    }
}

/// Projecting onto columns that the frame has, named without backslashes,
/// keeps exactly those columns, in the given order.
pub proof fn law_project_plain_columns(fields: Seq<Seq<char>>, columns: Seq<Seq<char>>)
    requires
        forall|i: int| 0 <= i < fields.len() ==> !(#[trigger] fields[i]).contains('\\') && columns.contains(fields[i]),
    ensures
        project_fields(fields, columns) == fields,
    decreases fields.len(),
{
    if fields.len() > 0 {
        let rest = fields.drop_last();
        assert forall|i: int| 0 <= i < rest.len() implies !(#[trigger] rest[i]).contains('\\') && columns.contains(rest[i]) by {
            assert(rest[i] == fields[i]);
        }
        law_project_plain_columns(rest, columns);
        let last = fields[fields.len() - 1];
        law_plain_field_unescaped(last);
        assert(project_fields(fields, columns) =~= rest.push(last));
        assert(rest.push(last) =~= fields);
    }
}

/// The text of a chain's query is its body alone exactly when the chain has
/// one query.
pub proof fn law_chain_sql_of_one_query(prefix: Seq<char>, queries: Seq<Seq<char>>)
    requires
        queries.len() >= 1,
    ensures
        queries.len() == 1 ==> chain_sql(prefix, queries) == queries[0],
        queries.len() > 1 ==> chain_sql(prefix, queries) == query_text(chain_query_view(prefix, queries))
            && chain_query_view(prefix, queries).with.len() == queries.len() - 1
            && chain_query_view(prefix, queries).with[0] == (cte_name(prefix, 0), queries[0]),
{
}

/// Two frames on the same connection whose chains stand for the same query
/// text have the same fingerprint, however their chains are split.
pub proof fn law_fingerprint_follows_query(v: FrameView, w: FrameView)
    requires
        v.conn_id == w.conn_id,
        chain_sql(v.prefix, v.queries) == chain_sql(w.prefix, w.queries),
    ensures
        query_fingerprint(v.conn_id, chain_sql(v.prefix, v.queries))
            == query_fingerprint(w.conn_id, chain_sql(w.prefix, w.queries)),
{
}

/// A selection of named expressions (no wildcard) has one nullable column
/// per expression, in order, with the expression's name and type, whatever
/// the input's columns.
pub proof fn law_named_outputs_are_nullable(columns: Seq<FieldView>, exprs: Seq<CompiledExpr>)
    requires
        forall|k: int| 0 <= k < exprs.len() ==> (#[trigger] exprs[k]).output is Named,
    ensures
        output_fields(columns, exprs).len() == exprs.len(),
        forall|k: int| 0 <= k < exprs.len() ==> #[trigger] output_fields(columns, exprs)[k]
            == nullable_field(exprs[k].output->Named_0@, exprs[k].data_type),
    decreases exprs.len(),
{
    if exprs.len() > 0 {
        let rest = exprs.drop_last();
        assert forall|k: int| 0 <= k < rest.len() implies (#[trigger] rest[k]).output is Named by {
            assert(rest[k] == exprs[k]);
        }
        law_named_outputs_are_nullable(columns, rest);
        let last = exprs.last();
        assert(exprs[exprs.len() - 1].output is Named);
        match last.output {
            ColumnSpec::Named(n) => {
                assert(output_fields(columns, exprs) == output_fields(columns, rest) + seq![nullable_field(n@, last.data_type)]);
            },
            ColumnSpec::Wildcard => {},
        }
        assert forall|k: int| 0 <= k < exprs.len() implies #[trigger] output_fields(columns, exprs)[k]
            == nullable_field(exprs[k].output->Named_0@, exprs[k].data_type) by {
            if k < rest.len() {
                assert(rest[k] == exprs[k]);
                assert(output_fields(columns, rest)[k] == nullable_field(rest[k].output->Named_0@, rest[k].data_type));
            }
        }
    }
}

/// Putting one more item in front of a list puts it, and a separator, in
/// front of the joined text.
pub proof fn lemma_join_prepend(k: Seq<char>, items: Seq<Seq<char>>, sep: Seq<char>)
    requires
        items.len() >= 1,
    ensures
        join(seq![k] + items, sep) == k + sep + join(items, sep),
    decreases items.len(),
{
    let all = seq![k] + items;
    assert(all.drop_last() =~= seq![k] + items.drop_last());
    if items.len() == 1 {
        assert(seq![k] + items.drop_last() =~= seq![k]);
        assert(join(seq![k], sep) == k);
    } else {
        lemma_join_prepend(k, items.drop_last(), sep);
    }
}

/// A sort orders by every given ordering whether or not a limit is given:
/// with orderings, its query is `select * from <parent> ORDER BY <orderings>`,
/// followed by ` LIMIT <n>` exactly when a limit `n` is given.
pub proof fn law_sort_orders_with_or_without_limit(parent: Seq<char>, order: Seq<Seq<char>>, limit: Option<i32>)
    requires
        order.len() >= 1,
    ensures
        sort_sql(parent, order, limit) == "select * from "@ + parent + " ORDER BY "@ + join(order, ", "@)
            + match limit { None => Seq::<char>::empty(), Some(l) => " LIMIT "@ + signed_decimal(l as int) },
{
}

/// A limit only appends ` LIMIT <n>` to the sort's query: the ordering part
/// is the same with and without it.
pub proof fn law_sort_limit_only_appends(parent: Seq<char>, order: Seq<Seq<char>>, limit: i32)
    ensures
        sort_sql(parent, order, Some(limit)) == sort_sql(parent, order, None) + " LIMIT "@ + signed_decimal(limit as int),
{
    assert(sort_sql(parent, order, None) =~= sort_sql(parent, order, None) + Seq::<char>::empty());
}

/// An aggregation groups by every group expression, in order: with group
/// expressions, its query is the ungrouped query followed by
/// ` group by <all group expressions joined by ", ">`.
pub proof fn law_aggregate_groups_by_every_group(parent: Seq<char>, items: Seq<Seq<char>>, groups: Seq<Seq<char>>)
    requires
        groups.len() >= 1,
    ensures
        aggregate_sql(parent, items, groups) == "select "@ + join(items, ", "@) + " from "@ + parent + " group by "@ + join(groups, ", "@),
        aggregate_sql(parent, items, groups) == aggregate_sql(parent, items, Seq::empty()) + " group by "@ + join(groups, ", "@),
{
}

/// A join aggregation with groups computes the aggregates grouped by every
/// group expression and joins them back on exactly the same list: the
/// `USING` list is the inner `group by` list.
pub proof fn law_joinaggregate_joins_on_every_group(
    parent: Seq<char>, input_items: Seq<Seq<char>>, new_items: Seq<Seq<char>>, aggr_items: Seq<Seq<char>>, groups: Seq<Seq<char>>,
)
    requires
        groups.len() >= 1,
    ensures
        ({
            let g = join(groups, ", "@);
            joinaggregate_sql(parent, input_items, new_items, aggr_items, groups)
                == "select "@ + join(input_items, ", "@) + ", "@ + join(new_items, ", "@) + " from "@ + parent
                    + " LEFT OUTER JOIN (select "@ + join(aggr_items, ", "@) + ", "@ + g + " from "@ + parent
                    + " group by "@ + g + ") as "@ + parent + "_inner"@ + " USING ("@ + g + ")"@
        }),
{
}

/// In the Center and Normalize modes alike, a stack with groups totals each
/// group on its own: after the `__stack` step, the next query joins each row
/// to the total of its group (`GROUP BY` the quoted groups, `USING` the same
/// list), and the rest of the stack reads from that.
pub proof fn law_stack_totals_per_group(
    base: FrameView, parts: StackText, groupby: Seq<Seq<char>>, start: Seq<char>, stop: Seq<char>, mode: StackMode,
)
    requires
        mode != StackMode::Zero,
        groupby.len() >= 1,
    ensures
        match chain_step(base, select_sql(parent_of(base), seq!["*"@, parts.stack_item]),
            base.columns.push(nullable_field("__stack"@, DataType::Float64))) {
            Err(e) => stack_result(base, parts, groupby, start, stop, mode) == Err::<FrameView, _>(e),
            Ok(v1) => {
                let p = join(Seq::new(groupby.len(), |i: int| quoted_ident(groupby[i], base.dialect.quote_style)), ", "@);
                let parent = parent_of(v1);
                match chain_step(
                    v1,
                    "SELECT * FROM "@ + parent + " INNER JOIN (SELECT "@ + p + ", "@ + parts.total_item + " from "@ + parent
                        + " GROUP BY "@ + p + ") as __inner USING ("@ + p + ")"@,
                    v1.columns.push(nullable_field("__total"@, DataType::Float64)),
                ) {
                    Err(e) => stack_result(base, parts, groupby, start, stop, mode) == Err::<FrameView, _>(e),
                    Ok(v2) => stack_result(base, parts, groupby, start, stop, mode) == stack_scaled_tail(v2, base, parts, start, stop, mode),
                }
            },
        },
{
    assert(quoted_all(base.dialect, groupby) =~= Seq::new(groupby.len(), |i: int| quoted_ident(groupby[i], base.dialect.quote_style)));
}

/// A grouped impute matches rows on the key and on every group column: its
/// query ends with a join of the parent `USING` the quoted key followed by
/// all the quoted group columns, in order.
pub proof fn law_impute_joins_on_key_and_every_group(
    v: FrameView, field: Seq<char>, fill: Seq<char>, key: Seq<char>, groupby: Seq<Seq<char>>,
    order: Option<(Seq<char>, Seq<char>, Seq<char>)>,
)
    requires
        groupby.len() >= 1,
    ensures
        ({
            let t = impute_grouped_sql(v, field, fill, key, groupby, order);
            let suffix = " LEFT OUTER JOIN "@ + parent_of(v) + " USING ("@ + quoted_ident(key, v.dialect.quote_style) + ", "@
                + join(Seq::new(groupby.len(), |i: int| quoted_ident(groupby[i], v.dialect.quote_style)), ", "@) + ")"@;
            &&& t.len() >= suffix.len()
            &&& t.subrange(t.len() - suffix.len(), t.len() as int) == suffix
        }),
{
    let d = v.dialect;
    let parent = parent_of(v);
    let k = quoted_ident(key, d.quote_style);
    let qs = quoted_all(d, groupby);
    assert(qs =~= Seq::new(groupby.len(), |i: int| quoted_ident(groupby[i], d.quote_style)));
    lemma_join_prepend(k, qs, ", "@);
    let sel = join(Seq::new(v.columns.len(), |i: int| grouped_impute_item(d, names_of(v.columns)[i], field, fill, key, groupby)), ", "@);
    let groups = join(qs, ", "@);
    let suffix = " LEFT OUTER JOIN "@ + parent + " USING ("@ + k + ", "@ + groups + ")"@;
    let t = impute_grouped_sql(v, field, fill, key, groupby, order);
    let pre = match order {
        Some((oc, okc, ogc)) =>
            "SELECT "@ + sel + ", "@ + okc + ", "@ + ogc
                + " FROM (SELECT "@ + k + ", min("@ + oc + ") as "@ + okc + " from "@ + parent
                + " WHERE "@ + k + " IS NOT NULL GROUP BY "@ + k + ") AS _key"@
                + " CROSS JOIN (SELECT "@ + groups + ", min("@ + oc + ") as "@ + ogc + " from "@ + parent
                + " GROUP BY "@ + groups + ") as _groups"@,
        None =>
            "SELECT "@ + sel + "  FROM (SELECT "@ + k + " from "@ + parent
                + " WHERE "@ + k + " IS NOT NULL GROUP BY "@ + k + ") AS _key"@
                + " CROSS JOIN (SELECT "@ + groups + " from "@ + parent
                + " GROUP BY "@ + groups + ") as _groups"@,
    };
    assert(t =~= pre + suffix);
    assert((pre + suffix).subrange(pre.len() as int, (pre + suffix).len() as int) =~= suffix);
}

/// A stack runs its sums per group and in order: with groups and orderings,
/// the running sum of the Zero mode and the running sum of `__stack` of the
/// other modes both go over a window partitioned by every quoted group column
/// and ordered by every ordering, from the first row of the group to the
/// current one.
pub proof fn law_stack_sums_run_per_group_in_order(
    style: QuoteStyle, value: Seq<char>, orderby: Seq<Seq<char>>, groupby: Seq<Seq<char>>,
    start: Seq<char>, stop: Seq<char>, mode: StackMode,
)
    requires
        groupby.len() >= 1,
        orderby.len() >= 1,
    ensures
        ({
            let t = stack_text(style, value, orderby, groupby, start, stop, mode);
            let w = "OVER ("@ + "PARTITION BY "@ + join(Seq::new(groupby.len(), |i: int| quoted_ident(groupby[i], style)), ", "@)
                + " "@ + "ORDER BY "@ + join(orderby, ", "@) + " "@ + "ROWS BETWEEN UNBOUNDED PRECEDING AND CURRENT ROW)"@;
            &&& t.window_item == aliased("sum("@ + "coalesce("@ + value + ", 0.0)"@ + ") "@ + w, stop, style)
            &&& t.cumulative_item == aliased("sum("@ + quoted_ident("__stack"@, style) + ") "@ + w, "_cumulative"@, style)
        }),
{
    let g = join(Seq::new(groupby.len(), |i: int| quoted_ident(groupby[i], style)), ", "@);
    let o = join(orderby, ", "@);
    let w = "OVER ("@ + "PARTITION BY "@ + g + " "@ + "ORDER BY "@ + o + " "@ + "ROWS BETWEEN UNBOUNDED PRECEDING AND CURRENT ROW)"@;
    assert(crate::stack::running_window(Seq::new(groupby.len(), |i: int| quoted_ident(groupby[i], style)), orderby) =~= w);
    assert("sum("@ + ("coalesce("@ + value + ", 0.0)"@) + ") "@ + w =~= "sum("@ + "coalesce("@ + value + ", 0.0)"@ + ") "@ + w);
}

/// Whether `t` ends with `s`.
pub open spec fn ends_with(t: Seq<char>, s: Seq<char>) -> bool {
    t.len() >= s.len() && t.subrange(t.len() - s.len(), t.len() as int) == s
}

/// Any text ends with what was last appended to it.
proof fn lemma_ends_with_appended(x: Seq<char>, a: Seq<char>)
    ensures
        ends_with(x + a, a),
{
    assert((x + a).subrange(x.len() as int, (x + a).len() as int) =~= a);
}

/// Appending the same text to both keeps one the end of the other.
proof fn lemma_ends_with_extend(x: Seq<char>, s: Seq<char>, a: Seq<char>)
    requires
        ends_with(x, s),
    ensures
        ends_with(x + a, s + a),
{
    assert((x + a).subrange((x + a).len() - (s + a).len(), (x + a).len() as int) =~= s + a) by {
        assert forall|j: int| 0 <= j < (s + a).len() implies
            #[trigger] (x + a).subrange((x + a).len() - (s + a).len(), (x + a).len() as int)[j] == (s + a)[j] by {
            if j < s.len() {
                assert(x.subrange(x.len() - s.len(), x.len() as int)[j] == s[j]);
            }
        }
    }
}

/// A grouped impute builds every combination of key and group from all the
/// group columns: its query ends with the subquery of the distinct groups,
/// which selects and groups by every quoted group column, in order, crossed
/// with the keys, then joined with the parent on the key and those columns.
pub proof fn law_impute_crosses_every_group(
    v: FrameView, field: Seq<char>, fill: Seq<char>, key: Seq<char>, groupby: Seq<Seq<char>>,
    order: Option<(Seq<char>, Seq<char>, Seq<char>)>,
)
    requires
        groupby.len() >= 1,
    ensures
        ({
            let g = join(Seq::new(groupby.len(), |i: int| quoted_ident(groupby[i], v.dialect.quote_style)), ", "@);
            let parent = parent_of(v);
            ends_with(
                impute_grouped_sql(v, field, fill, key, groupby, order),
                " CROSS JOIN (SELECT "@ + g
                    + match order { None => Seq::<char>::empty(), Some((oc, okc, ogc)) => ", min("@ + oc + ") as "@ + ogc }
                    + " from "@ + parent + " GROUP BY "@ + g + ") as _groups"@
                    + " LEFT OUTER JOIN "@ + parent + " USING ("@ + quoted_ident(key, v.dialect.quote_style) + ", "@ + g + ")"@,
            )
        }),
{
    let d = v.dialect;
    let parent = parent_of(v);
    let k = quoted_ident(key, d.quote_style);
    let qs = quoted_all(d, groupby);
    assert(qs =~= Seq::new(groupby.len(), |i: int| quoted_ident(groupby[i], d.quote_style)));
    lemma_join_prepend(k, qs, ", "@);
    let sel = join(Seq::new(v.columns.len(), |i: int| grouped_impute_item(d, names_of(v.columns)[i], field, fill, key, groupby)), ", "@);
    let g = join(qs, ", "@);
    let using = join(seq![k] + qs, ", "@);
    let mid = match order { None => Seq::<char>::empty(), Some((oc, okc, ogc)) => ", min("@ + oc + ") as "@ + ogc };
    let pre = match order {
        Some((oc, okc, ogc)) =>
            "SELECT "@ + sel + ", "@ + okc + ", "@ + ogc
                + " FROM (SELECT "@ + k + ", min("@ + oc + ") as "@ + okc + " from "@ + parent
                + " WHERE "@ + k + " IS NOT NULL GROUP BY "@ + k + ") AS _key"@,
        None =>
            "SELECT "@ + sel + "  FROM (SELECT "@ + k + " from "@ + parent
                + " WHERE "@ + k + " IS NOT NULL GROUP BY "@ + k + ") AS _key"@,
    };
    let s0 = " CROSS JOIN (SELECT "@;
    lemma_ends_with_appended(pre, s0);
    let x1 = pre + s0 + g;
    lemma_ends_with_extend(pre + s0, s0, g);
    let x2 = x1 + mid;
    lemma_ends_with_extend(x1, s0 + g, mid);
    let (x3, s3) = (x2 + " from "@, s0 + g + mid + " from "@);
    lemma_ends_with_extend(x2, s0 + g + mid, " from "@);
    lemma_ends_with_extend(x3, s3, parent);
    let (x4, s4) = (x3 + parent + " GROUP BY "@, s3 + parent + " GROUP BY "@);
    lemma_ends_with_extend(x3 + parent, s3 + parent, " GROUP BY "@);
    lemma_ends_with_extend(x4, s4, g);
    let (x5, s5) = (x4 + g + ") as _groups"@, s4 + g + ") as _groups"@);
    lemma_ends_with_extend(x4 + g, s4 + g, ") as _groups"@);
    lemma_ends_with_extend(x5, s5, " LEFT OUTER JOIN "@);
    let (x6, s6) = (x5 + " LEFT OUTER JOIN "@ + parent, s5 + " LEFT OUTER JOIN "@ + parent);
    lemma_ends_with_extend(x5 + " LEFT OUTER JOIN "@, s5 + " LEFT OUTER JOIN "@, parent);
    let (x7, s7) = (x6 + " USING ("@ + using, s6 + " USING ("@ + using);
    lemma_ends_with_extend(x6, s6, " USING ("@);
    lemma_ends_with_extend(x6 + " USING ("@, s6 + " USING ("@, using);
    lemma_ends_with_extend(x7, s7, ")"@);
    assert(s7 + ")"@ =~= s6 + " USING ("@ + k + ", "@ + g + ")"@);
    let t = impute_grouped_sql(v, field, fill, key, groupby, order);
    match order {
        Some(_) => {
            assert(t == x7 + ")"@);
        },
        None => {
            assert(x2 =~= x1);
            assert(t == x7 + ")"@);
        },
    }
}

/// Leaving out the named columns keeps every other column, in order: it is
/// the columns filtered by their name not being among the names.
pub proof fn law_fields_without_filters(cols: Seq<FieldView>, names: Seq<Seq<char>>)
    ensures
        fields_without(cols, names) == cols.filter(|f: FieldView| !names.contains(f.name)),
    decreases cols.len(),
{
    reveal_with_fuel(Seq::filter, 1);
    if cols.len() > 0 {
        law_fields_without_filters(cols.drop_last(), names);
        let pred = |f: FieldView| !names.contains(f.name);
        if pred(cols.last()) {
            assert(fields_without(cols, names) =~= cols.drop_last().filter(pred).push(cols.last()));
        } else {
            assert(fields_without(cols, names) =~= cols.drop_last().filter(pred));
        }
    }
}

/// The last step of a stack carries over every column of the stacked frame
/// but the start and stop columns, in order, and then writes start and stop.
pub proof fn law_stack_keeps_other_columns(
    v: FrameView, base: FrameView, parts: StackText, start: Seq<char>, stop: Seq<char>, mode: StackMode,
)
    ensures
        ({
            let kept = names_of(base.columns.filter(|f: FieldView| f.name != start && f.name != stop));
            stack_final_step(v, base, parts, start, stop, mode) == chain_step(
                v,
                select_sql(parent_of(v), quoted_all(base.dialect, kept) + seq![parts.start_item, parts.stop_item]),
                select_named(v.columns, kept) + seq![
                    nullable_field(start, DataType::Float64),
                    nullable_field(stop, if mode == StackMode::Zero { type_of(v.columns, stop) } else { DataType::Float64 }),
                ],
            )
        }),
{
    let names = seq![start, stop];
    law_fields_without_filters(base.columns, names);
    let p1 = |f: FieldView| !names.contains(f.name);
    let p2 = |f: FieldView| f.name != start && f.name != stop;
    assert forall|f: FieldView| #[trigger] p1(f) == p2(f) by {
        if f.name == start {
            assert(names[0] == f.name);
        } else if f.name == stop {
            assert(names[1] == f.name);
        } else {
            assert(!names.contains(f.name));
        }
    }
    assert(p1 =~= p2);
}

/// In a dialect that qualifies the columns of an impute, every group column
/// (whatever its place among the groups) other than the imputed field and
/// the key is read from the distinct groups, `_groups`.
pub proof fn law_impute_reads_every_group_column_from_groups(
    d: Dialect, field: Seq<char>, fill: Seq<char>, key: Seq<char>, groupby: Seq<Seq<char>>, j: int,
)
    requires
        d.impute_fully_qualified,
        0 <= j < groupby.len(),
        groupby[j] != field,
        groupby[j] != key,
    ensures
        grouped_impute_item(d, groupby[j], field, fill, key, groupby)
            == aliased(column_ref(Some("_groups"@), groupby[j], d.quote_style), groupby[j], d.quote_style),
{
    assert(groupby.contains(groupby[j]));
}

} // verus!
