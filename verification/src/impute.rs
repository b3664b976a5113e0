//! Imputing missing values of a column.
use vstd::prelude::*;
use crate::dialect::{append_quoted_ident, quote_ident, quoted_ident, Dialect, QuoteStyle};
use crate::fold::{quote_all, quoted_all};
use crate::frame::{and_then, chain_step, frame_result_matches, parent_of, FrameView, SqlDataFrame, StepError};
use crate::joinagg::contains_string;
use crate::ops::select_sql;
use crate::parse::SqlError;
use crate::render::{aliased, aliased_column, aliased_expr, column_ref, row_number_item, row_number_text, sort_key, sort_key_text};
use crate::schema::{field_names, fields_view, lookup_type, names_of, nullable_field, select_named, select_named_fields, type_of, DataType, Field, FieldView};
use crate::text::{join, join_strings, views};

verus! {

/// The SQL an ordered impute needs.
#[derive(Debug)]
pub struct ImputeOrder {
    field: String,
    order_col: String,
    order_key_col: String,
    order_group_col: String,
    row_number_item: String,
    row_number_item_no_null_ordering: String,
}

/// The text of the SQL an ordered impute needs.
pub struct ImputeOrderText {
    /// The name of the ordering column.
    pub field: Seq<char>,
    /// The ordering column.
    pub order_col: Seq<char>,
    /// The column `<field>_key`: the first position of each key.
    pub order_key_col: Seq<char>,
    /// The column `<field>_groups`: the first position of each group.
    pub order_group_col: Seq<char>,
    /// The row number that restores the input order and puts imputed rows
    /// last, using `NULLS FIRST/LAST`.
    pub row_number_item: Seq<char>,
    /// The same row number for dialects without `NULLS FIRST/LAST`.
    pub row_number_item_no_null_ordering: Seq<char>,
}

impl View for ImputeOrder {
    type V = ImputeOrderText;

    closed spec fn view(&self) -> ImputeOrderText {
        ImputeOrderText {
            field: self.field@,
            order_col: self.order_col@,
            order_key_col: self.order_key_col@,
            order_group_col: self.order_group_col@,
            row_number_item: self.row_number_item@,
            row_number_item_no_null_ordering: self.row_number_item_no_null_ordering@,
        }
    }
}

/// The fill of an impute: `coalesce(<field>, <value>)`, the field with its
/// nulls replaced by the value (a compiled SQL literal).
pub open spec fn impute_fill(style: QuoteStyle, field: Seq<char>, value: Seq<char>) -> Seq<char> {
    "coalesce("@ + quoted_ident(field, style) + ", "@ + value + ")"@
}

/// The SQL an impute ordered by the column `f` needs. Rows are numbered by
/// `f` with nulls (the imputed rows) last, then by the first position of the
/// row's group, then by the first position of its key.
pub open spec fn impute_order_text(d: Dialect, f: Seq<char>) -> ImputeOrderText {
    let q = |n: Seq<char>| quoted_ident(n, d.quote_style);
    let k = q(f + "_key"@);
    let g = q(f + "_groups"@);
    ImputeOrderText {
        field: f,
        order_col: q(f),
        order_key_col: k,
        order_group_col: g,
        row_number_item: row_number_item(
            seq![sort_key(q(f), false, true), sort_key(g, true, true), sort_key(k, true, true)], f, d.quote_style),
        row_number_item_no_null_ordering: row_number_item(
            seq![sort_key(q(f) + " IS NULL"@, true, false), sort_key(q(f), true, false), sort_key(g, true, false), sort_key(k, true, false)],
            f, d.quote_style),
    }
}

/// The SQL an impute ordered by the column `f` needs.
fn impute_order_of(d: &Dialect, f: &str) -> (o: ImputeOrder)
    ensures
        o@ == impute_order_text(*d, f@),
{
    let style = d.quote_style;
    let qf = quote_ident(f, style);
    let mut key_name = f.to_string();
    key_name.append("_key");
    let mut groups_name = f.to_string();
    groups_name.append("_groups");
    let k = quote_ident(key_name.as_str(), style);
    let g = quote_ident(groups_name.as_str(), style);
    let mut keys: Vec<String> = Vec::new();
    keys.push(sort_key_text(qf.as_str(), false, true));
    keys.push(sort_key_text(g.as_str(), true, true));
    keys.push(sort_key_text(k.as_str(), true, true));
    let mut is_null = qf.clone();
    is_null.append(" IS NULL");
    let mut plain: Vec<String> = Vec::new();
    plain.push(sort_key_text(qf.as_str(), true, false));
    plain.push(sort_key_text(qf.as_str(), true, false));
    plain.set(0, sort_key_text(is_null.as_str(), true, false));
    plain.push(sort_key_text(g.as_str(), true, false));
    plain.push(sort_key_text(k.as_str(), true, false));
    let row_number_item = row_number_text(&keys, f, style);
    let row_number_item_no_null_ordering = row_number_text(&plain, f, style);
    proof {
        assert(views(keys@) =~= seq![sort_key(qf@, false, true), sort_key(g@, true, true), sort_key(k@, true, true)]);
        assert(views(plain@) =~= seq![sort_key(qf@ + " IS NULL"@, true, false), sort_key(qf@, true, false), sort_key(g@, true, false), sort_key(k@, true, false)]);
    }
    let o = ImputeOrder {
        field: f.to_string(),
        order_col: qf,
        order_key_col: k,
        order_group_col: g,
        row_number_item,
        row_number_item_no_null_ordering,
    };
    o
}

/// Whether `s` begins with `p`.
pub open spec fn starts_with(s: Seq<char>, p: Seq<char>) -> bool {
    s.len() >= p.len() && s.take(p.len() as int) =~= p
}

/// The select item for column `c` of an impute without groups: the filled
/// column, or the column itself.
pub open spec fn plain_impute_item(d: Dialect, c: Seq<char>, field: Seq<char>, fill: Seq<char>) -> Seq<char> {
    if c == field { aliased(fill, c, d.quote_style) } else { quoted_ident(c, d.quote_style) }
}

/// The select item for column `c` of an impute with groups.
pub open spec fn grouped_impute_item(d: Dialect, c: Seq<char>, field: Seq<char>, fill: Seq<char>, key: Seq<char>, groupby: Seq<Seq<char>>) -> Seq<char> {
    if !d.impute_fully_qualified || c == field {
        plain_impute_item(d, c, field, fill)
    } else if c == key {
        aliased(column_ref(Some("_key"@), c, d.quote_style), c, d.quote_style)
    } else if groupby.contains(c) {
        aliased(column_ref(Some("_groups"@), c, d.quote_style), c, d.quote_style)
    } else {
        quoted_ident(c, d.quote_style)
    }
}

/// The SQL text of an impute with groups: every combination of key and
/// group, joined with the rows that have it.
pub open spec fn impute_grouped_sql(v: FrameView, field: Seq<char>, fill: Seq<char>, key: Seq<char>, groupby: Seq<Seq<char>>, order: Option<(Seq<char>, Seq<char>, Seq<char>)>) -> Seq<char> {
    let d = v.dialect;
    let parent = parent_of(v);
    let sel = join(Seq::new(v.columns.len(), |i: int| grouped_impute_item(d, names_of(v.columns)[i], field, fill, key, groupby)), ", "@);
    let k = quoted_ident(key, d.quote_style);
    let groups = join(quoted_all(d, groupby), ", "@);
    let using = join(seq![k] + quoted_all(d, groupby), ", "@);
    match order {
        Some((oc, okc, ogc)) =>
            "SELECT "@ + sel + ", "@ + okc + ", "@ + ogc
                + " FROM (SELECT "@ + k + ", min("@ + oc + ") as "@ + okc + " from "@ + parent
                + " WHERE "@ + k + " IS NOT NULL GROUP BY "@ + k + ") AS _key"@
                + " CROSS JOIN (SELECT "@ + groups + ", min("@ + oc + ") as "@ + ogc + " from "@ + parent
                + " GROUP BY "@ + groups + ") as _groups"@
                + " LEFT OUTER JOIN "@ + parent + " USING ("@ + using + ")"@,
        None =>
            "SELECT "@ + sel + "  FROM (SELECT "@ + k + " from "@ + parent
                + " WHERE "@ + k + " IS NOT NULL GROUP BY "@ + k + ") AS _key"@
                + " CROSS JOIN (SELECT "@ + groups + " from "@ + parent
                + " GROUP BY "@ + groups + ") as _groups"@
                + " LEFT OUTER JOIN "@ + parent + " USING ("@ + using + ")"@,
    }
}

/// The columns of `names` that do not begin with `p`.
pub open spec fn not_starting_with(names: Seq<Seq<char>>, p: Seq<char>) -> Seq<Seq<char>>
    decreases names.len(),
{
    if names.len() == 0 {
        Seq::empty()
    } else {
        not_starting_with(names.drop_last(), p) + if starts_with(names.last(), p) {
            Seq::<Seq<char>>::empty()
        } else {
            seq![names.last()]
        }
    }
}

/// The last step of an ordered impute: the row number, then every column
/// that does not begin with the ordering column's name.
pub open spec fn impute_order_step(v: FrameView, o: ImputeOrderText) -> Result<FrameView, StepError> {
    let kept = not_starting_with(names_of(v.columns), o.field);
    let row_number = if v.dialect.supports_null_ordering { o.row_number_item } else { o.row_number_item_no_null_ordering };
    chain_step(
        v,
        select_sql(parent_of(v), seq![row_number] + quoted_all(v.dialect, kept)),
        seq![nullable_field(o.field, DataType::UInt64)] + select_named(v.columns, kept),
    )
}

/// The columns of an impute: the imputed field takes the fill value's type;
/// every column is nullable.
pub open spec fn impute_columns(cols: Seq<FieldView>, field: Seq<char>, fill_type: DataType) -> Seq<FieldView> {
    Seq::new(cols.len(), |i: int| if cols[i].name == field {
        nullable_field(field, fill_type)
    } else {
        nullable_field(cols[i].name, cols[i].data_type)
    })
}

/// The frame an impute gives, or why it failed.
pub open spec fn impute_result(v: FrameView, field: Seq<char>, fill: Seq<char>, fill_type: DataType, key: Seq<char>, groupby: Seq<Seq<char>>, order: Option<ImputeOrderText>) -> Result<FrameView, StepError> {
    if groupby.len() == 0 {
        chain_step(
            v,
            select_sql(parent_of(v), Seq::new(v.columns.len(), |i: int| plain_impute_item(v.dialect, names_of(v.columns)[i], field, fill))),
            impute_columns(v.columns, field, fill_type),
        )
    } else {
        match order {
            None => chain_step(v, impute_grouped_sql(v, field, fill, key, groupby, None), impute_columns(v.columns, field, fill_type)),
            Some(o) => and_then(
                chain_step(
                    v,
                    impute_grouped_sql(v, field, fill, key, groupby, Some((o.order_col, o.order_key_col, o.order_group_col))),
                    impute_columns(v.columns, field, fill_type) + seq![
                        nullable_field(o.field + "_key"@, type_of(v.columns, o.field)),
                        nullable_field(o.field + "_groups"@, type_of(v.columns, o.field)),
                    ],
                ),
                |v1: FrameView| impute_order_step(v1, o),
            ),
        }
    }
}

/// Whether `s` begins with `p`.
pub fn string_starts_with(s: &str, p: &str) -> (res: bool)
    ensures
        res == starts_with(s@, p@),
{
    let n = s.unicode_len();
    let m = p.unicode_len();
    if n < m {
        return false;
    }
    let mut i: usize = 0;
    while i < m
        invariant
            i <= m,
            m <= n,
            n == s@.len(),
            m == p@.len(),
            forall|j: int| 0 <= j < i ==> s@[j] == p@[j],
        decreases m - i,
    {
        if s.get_char(i) != p.get_char(i) {
            assert(s@.take(m as int)[i as int] != p@[i as int]);
            return false;
        }
        i = i + 1;
    }
    assert(s@.take(m as int) =~= p@);
    true
}

impl SqlDataFrame {
    /// The select items of an impute.
    fn impute_items(&self, field: &str, fill: &str, key: &str, groupby: &Vec<String>, grouped: bool) -> (res: Vec<String>)
        ensures
            grouped ==> views(res@) == Seq::new(self@.columns.len(), |i: int|
                grouped_impute_item(self@.dialect, names_of(self@.columns)[i], field@, fill@, key@, views(groupby@))),
            !grouped ==> views(res@) == Seq::new(self@.columns.len(), |i: int|
                plain_impute_item(self@.dialect, names_of(self@.columns)[i], field@, fill@)),
    {
        let d = self.dialect();
        let columns = field_names(self.schema());
        let field_s = field.to_string();
        let key_s = key.to_string();
        let mut res: Vec<String> = Vec::new();
        let mut i: usize = 0;
        while i < columns.len()
            invariant
                i <= columns@.len(),
                views(columns@) == names_of(self@.columns),
                *d == self@.dialect,
                field_s@ == field@,
                key_s@ == key@,
                res@.len() == i,
                grouped ==> forall|j: int| 0 <= j < i ==> #[trigger] res@[j]@ ==
                    grouped_impute_item(self@.dialect, columns@[j]@, field@, fill@, key@, views(groupby@)),
                !grouped ==> forall|j: int| 0 <= j < i ==> #[trigger] res@[j]@ ==
                    plain_impute_item(self@.dialect, columns@[j]@, field@, fill@),
            decreases columns@.len() - i,
        {
            let c = &columns[i];
            let item = if *c == field_s {
                aliased_expr(fill, c.as_str(), d.quote_style)
            } else if grouped && d.impute_fully_qualified && *c == key_s {
                aliased_column(Some("_key"), c.as_str(), c.as_str(), d.quote_style)
            } else if grouped && d.impute_fully_qualified && contains_string(groupby, c) {
                aliased_column(Some("_groups"), c.as_str(), c.as_str(), d.quote_style)
            } else {
                quote_ident(c.as_str(), d.quote_style)
            };
            proof {
                reveal_strlit("_key");
                reveal_strlit("_groups");
            }
            res.push(item);
            i = i + 1;
        }
        proof {
            assert(views(columns@).len() == names_of(self@.columns).len());
            assert forall|j: int| 0 <= j < columns@.len() implies #[trigger] columns@[j]@ == names_of(self@.columns)[j] by {
                assert(views(columns@)[j] == columns@[j]@);
            }
            if grouped {
                assert(views(res@) =~= Seq::new(self@.columns.len(), |i: int|
                    grouped_impute_item(self@.dialect, names_of(self@.columns)[i], field@, fill@, key@, views(groupby@))));
            } else {
                assert(views(res@) =~= Seq::new(self@.columns.len(), |i: int|
                    plain_impute_item(self@.dialect, names_of(self@.columns)[i], field@, fill@)));
            }
        }
        res
    }

    /// Imputes missing values of `field` with `value` (a compiled SQL
    /// literal): the field becomes `coalesce(<field>, <value>)`, of type
    /// `fill_type`. Without groups, that is all. With groups, every
    /// combination of a `key` value and a group is given a row, where the
    /// field is the value; with an ordering column, the rows are numbered by
    /// it, imputed rows last.
    pub fn impute(&self, field: &str, value: &str, fill_type: DataType, key: &str, groupby: &Vec<String>, order_field: Option<&str>) -> (res: Result<SqlDataFrame, SqlError>)
        ensures
            frame_result_matches(res, impute_result(self@, field@, impute_fill(self@.dialect.quote_style, field@, value@), fill_type, key@,
                views(groupby@), match order_field { None => None, Some(f) => Some(impute_order_text(self@.dialect, f@)) })),
    {
        let d = self.dialect();
        let mut fill = String::new();
        fill.append("coalesce(");
        append_quoted_ident(&mut fill, field, d.quote_style);
        fill.append(", ");
        fill.append(value);
        fill.append(")");
        assert(fill@ =~= impute_fill(self@.dialect.quote_style, field@, value@));
        let order = match order_field {
            None => None,
            Some(f) => Some(impute_order_of(d, f)),
        };
        self.impute_with(field, fill.as_str(), fill_type, key, groupby, order)
    }

    /// An impute with the given fill text and ordering.
    fn impute_with(&self, field: &str, fill: &str, fill_type: DataType, key: &str, groupby: &Vec<String>, order: Option<ImputeOrder>) -> (res: Result<SqlDataFrame, SqlError>)
        ensures
            frame_result_matches(res, impute_result(self@, field@, fill@, fill_type, key@, views(groupby@),
                match order { None => None, Some(o) => Some(o@) })),
    {
        let d = self.dialect();
        if groupby.len() == 0 {
            let items = self.impute_items(field, fill, key, groupby, false);
            return self.select_items(&items, impute_fields(self.schema(), field, fill_type));
        }
        let parent = self.parent_name();
        let items = self.impute_items(field, fill, key, groupby, true);
        let sel = join_strings(&items, ", ");
        let k = quote_ident(key, d.quote_style);
        let quoted_groups = quote_all(d, groupby);
        let groups = join_strings(&quoted_groups, ", ");
        let mut using_items: Vec<String> = Vec::new();
        using_items.push(k.clone());
        let mut i: usize = 0;
        while i < quoted_groups.len()
            invariant
                i <= quoted_groups@.len(),
                using_items@.len() == i + 1,
                using_items@[0]@ == k@,
                forall|j: int| 0 <= j < i ==> #[trigger] using_items@[j + 1]@ == quoted_groups@[j]@,
            decreases quoted_groups@.len() - i,
        {
            using_items.push(quoted_groups[i].clone());
            i = i + 1;
        }
        assert forall|j: int| 0 <= j < using_items@.len() implies #[trigger] views(using_items@)[j] == (seq![k@] + views(quoted_groups@))[j] by {
            if j > 0 {
                assert(using_items@[(j - 1) + 1]@ == quoted_groups@[j - 1]@);
            }
        }
        assert(views(using_items@) =~= seq![k@] + views(quoted_groups@));
        let using = join_strings(&using_items, ", ");
        let mut sql = String::new();
        sql.append("SELECT ");
        sql.append(sel.as_str());
        match &order {
            Some(o) => {
                sql.append(", ");
                sql.append(o.order_key_col.as_str());
                sql.append(", ");
                sql.append(o.order_group_col.as_str());
                sql.append(" FROM (SELECT ");
                sql.append(k.as_str());
                sql.append(", min(");
                sql.append(o.order_col.as_str());
                sql.append(") as ");
                sql.append(o.order_key_col.as_str());
                sql.append(" from ");
                sql.append(parent.as_str());
                sql.append(" WHERE ");
                sql.append(k.as_str());
                sql.append(" IS NOT NULL GROUP BY ");
                sql.append(k.as_str());
                sql.append(") AS _key");
                sql.append(" CROSS JOIN (SELECT ");
                sql.append(groups.as_str());
                sql.append(", min(");
                sql.append(o.order_col.as_str());
                sql.append(") as ");
                sql.append(o.order_group_col.as_str());
                sql.append(" from ");
                sql.append(parent.as_str());
                sql.append(" GROUP BY ");
                sql.append(groups.as_str());
                sql.append(") as _groups");
            },
            None => {
                sql.append("  FROM (SELECT ");
                sql.append(k.as_str());
                sql.append(" from ");
                sql.append(parent.as_str());
                sql.append(" WHERE ");
                sql.append(k.as_str());
                sql.append(" IS NOT NULL GROUP BY ");
                sql.append(k.as_str());
                sql.append(") AS _key");
                sql.append(" CROSS JOIN (SELECT ");
                sql.append(groups.as_str());
                sql.append(" from ");
                sql.append(parent.as_str());
                sql.append(" GROUP BY ");
                sql.append(groups.as_str());
                sql.append(") as _groups");
            },
        }
        sql.append(" LEFT OUTER JOIN ");
        sql.append(parent.as_str());
        sql.append(" USING (");
        sql.append(using.as_str());
        sql.append(")");
        match order {
            None => {
                assert(sql@ =~= impute_grouped_sql(self@, field@, fill@, key@, views(groupby@), None));
                self.chain_query_str(sql.as_str(), impute_fields(self.schema(), field, fill_type))
            },
            Some(o) => {
                assert(sql@ =~= impute_grouped_sql(self@, field@, fill@, key@, views(groupby@),
                    Some((o.order_col@, o.order_key_col@, o.order_group_col@))));
                let mut columns = impute_fields(self.schema(), field, fill_type);
                let ghost base = fields_view(columns@);
                let order_type = lookup_type(self.schema(), o.field.as_str());
                let mut key_name = o.field.clone();
                key_name.append("_key");
                let mut groups_name = o.field.clone();
                groups_name.append("_groups");
                columns.push(Field { name: key_name, data_type: order_type, nullable: true });
                columns.push(Field { name: groups_name, data_type: order_type, nullable: true });
                assert(fields_view(columns@) =~= base + seq![
                    nullable_field(o.field@ + "_key"@, type_of(self@.columns, o.field@)),
                    nullable_field(o.field@ + "_groups"@, type_of(self@.columns, o.field@)),
                ]);
                let df1 = self.chain_query_str(sql.as_str(), columns)?;
                df1.impute_order(o)
            },
        }
    }

    /// The last step of an ordered impute.
    fn impute_order(&self, o: ImputeOrder) -> (res: Result<SqlDataFrame, SqlError>)
        ensures
            frame_result_matches(res, impute_order_step(self@, o@)),
    {
        let d = self.dialect();
        let columns = field_names(self.schema());
        let mut kept: Vec<String> = Vec::new();
        let mut i: usize = 0;
        while i < columns.len()
            invariant
                i <= columns@.len(),
                views(columns@) == names_of(self@.columns),
                views(kept@) == not_starting_with(names_of(self@.columns).take(i as int), o.field@),
            decreases columns@.len() - i,
        {
            let ghost before = views(kept@);
            proof {
                assert(names_of(self@.columns).take(i + 1).drop_last() =~= names_of(self@.columns).take(i as int));
                assert(names_of(self@.columns).take(i + 1).last() == columns@[i as int]@);
            }
            if !string_starts_with(columns[i].as_str(), o.field.as_str()) {
                kept.push(columns[i].clone());
                assert(views(kept@) =~= before + seq![columns@[i as int]@]);
            } else {
                assert(views(kept@) =~= before + Seq::<Seq<char>>::empty());
            }
            i = i + 1;
        }
        assert(names_of(self@.columns).take(columns@.len() as int) =~= names_of(self@.columns));
        let quoted = quote_all(d, &kept);
        let mut items: Vec<String> = Vec::new();
        if d.supports_null_ordering {
            items.push(o.row_number_item.clone());
        } else {
            items.push(o.row_number_item_no_null_ordering.clone());
        }
        let ghost first = views(items@);
        assert(first =~= seq![if self@.dialect.supports_null_ordering { o.row_number_item@ } else { o.row_number_item_no_null_ordering@ }]);
        let mut q = quoted;
        let ghost qv = views(q@);
        items.append(&mut q);
        let mut out: Vec<Field> = Vec::new();
        out.push(Field { name: o.field.clone(), data_type: DataType::UInt64, nullable: true });
        let ghost nf = fields_view(out@);
        assert(nf =~= seq![nullable_field(o.field@, DataType::UInt64)]);
        let mut rest = select_named_fields(self.schema(), &kept);
        let ghost kv = fields_view(rest@);
        out.append(&mut rest);
        assert(views(items@) =~= first + qv);
        assert(fields_view(out@) =~= nf + kv);
        self.select_items(&items, out)
    }
}

/// The columns of an impute.
fn impute_fields(cols: &Vec<Field>, field: &str, fill_type: DataType) -> (res: Vec<Field>)
    ensures
        fields_view(res@) == impute_columns(fields_view(cols@), field@, fill_type),
{
    let field_s = field.to_string();
    let mut res: Vec<Field> = Vec::new();
    let mut i: usize = 0;
    while i < cols.len()
        invariant
            i <= cols@.len(),
            field_s@ == field@,
            res@.len() == i,
            forall|j: int| 0 <= j < i ==> #[trigger] res@[j]@ == (if cols@[j].name@ == field@ {
                nullable_field(field@, fill_type)
            } else {
                nullable_field(cols@[j].name@, cols@[j].data_type)
            }),
        decreases cols@.len() - i,
    {
        if cols[i].name == field_s {
            res.push(Field { name: field_s.clone(), data_type: fill_type, nullable: true });
        } else {
            res.push(Field { name: cols[i].name.clone(), data_type: cols[i].data_type, nullable: true });
        }
        i = i + 1;
    }
    assert(fields_view(res@) =~= impute_columns(fields_view(cols@), field@, fill_type));
    res
}

} // verus!
