//! Folding columns into key/value rows.
use vstd::prelude::*;
use crate::dialect::{append_quoted_ident, quote_ident, quoted_ident, Dialect};
use crate::frame::{and_then, chain_step, frame_result_matches, parent_of, FrameView, SqlDataFrame, StepError};
use crate::joinagg::contains_string;
use crate::schema::{all_nullable, field_names, fields_view, fields_without, fields_without_names, lookup_type, make_nullable, names_of, nullable_field, select_named, select_named_fields, type_of, DataType, Field, FieldView};
use crate::ops::select_sql;
use crate::parse::SqlError;
use crate::render::{aliased, aliased_expr, row_number_item, row_number_text, sort_key, sort_key_text};
use crate::text::{append_decimal, append_string_literal, decimal, join, join_strings, string_literal, views};

verus! {

/// The row number that orders the folded rows: first by the ordering column,
/// then by the position of the folded field, nulls first; aliased to the
/// ordering column.
pub open spec fn fold_row_number(d: Dialect, order: Seq<char>) -> Seq<char> {
    row_number_item(
        seq![
            sort_key(quoted_ident(order, d.quote_style), true, d.supports_null_ordering),
            sort_key(quoted_ident(field_order_col(order), d.quote_style), true, d.supports_null_ordering),
        ],
        order,
        d.quote_style,
    )
}

/// The row number that orders the folded rows.
fn fold_row_number_text(d: &Dialect, order: &str) -> (res: String)
    ensures
        res@ == fold_row_number(*d, order@),
{
    let mut keys: Vec<String> = Vec::new();
    keys.push(sort_key_text(quote_ident(order, d.quote_style).as_str(), true, d.supports_null_ordering));
    let mut position = order.to_string();
    position.append("_field");
    keys.push(sort_key_text(quote_ident(position.as_str(), d.quote_style).as_str(), true, d.supports_null_ordering));
    assert(views(keys@) =~= seq![
        sort_key(quoted_ident(order@, d.quote_style), true, d.supports_null_ordering),
        sort_key(quoted_ident(field_order_col(order@), d.quote_style), true, d.supports_null_ordering),
    ]);
    row_number_text(&keys, order, d.quote_style)
}

/// The name of the column that holds a folded field's position.
pub open spec fn field_order_col(order_field: Seq<char>) -> Seq<char> {
    order_field + "_field"@
}

/// The columns of a frame that a fold carries over: all but the key and
/// value columns.
pub open spec fn fold_kept(columns: Seq<FieldView>, key_col: Seq<char>, value_col: Seq<char>) -> Seq<FieldView> {
    fields_without(columns, seq![key_col, value_col])
}

/// The kept columns as quoted column references.
pub open spec fn quoted_all(d: Dialect, names: Seq<Seq<char>>) -> Seq<Seq<char>> {
    Seq::new(names.len(), |i: int| quoted_ident(names[i], d.quote_style))
}

/// The select list of the subquery that folds field number `i`.
pub open spec fn fold_subquery_items(
    v: FrameView, fields: Seq<Seq<char>>, i: int, key_col: Seq<char>, value_col: Seq<char>, order: Option<Seq<char>>,
) -> Seq<Seq<char>> {
    let d = v.dialect;
    let field = fields[i];
    quoted_all(d, names_of(fold_kept(v.columns, key_col, value_col)))
        + seq![aliased(string_literal(field), key_col, d.quote_style)]
        + seq![if names_of(v.columns).contains(field) {
            aliased(quoted_ident(field, d.quote_style), value_col, d.quote_style)
        } else {
            aliased("NULL"@, value_col, d.quote_style)
        }]
        + match order {
            None => Seq::empty(),
            Some(o) => seq![aliased(decimal((i as u32) as nat), field_order_col(o), d.quote_style)],
        }
}

/// The names of the columns of the folded frame.
pub open spec fn fold_names(v: FrameView, key_col: Seq<char>, value_col: Seq<char>, order: Option<Seq<char>>) -> Seq<Seq<char>> {
    names_of(fold_kept(v.columns, key_col, value_col)) + seq![key_col, value_col]
        + match order { None => Seq::empty(), Some(o) => seq![field_order_col(o)] }
}

/// The columns of the folded frame: the kept columns, the key (text), the
/// value (of the type of the first field's column, `Null` where the frame has
/// none) and the field position, all nullable.
pub open spec fn fold_columns(v: FrameView, fields: Seq<Seq<char>>, key_col: Seq<char>, value_col: Seq<char>, order: Option<Seq<char>>) -> Seq<FieldView> {
    all_nullable(fold_kept(v.columns, key_col, value_col))
        + seq![nullable_field(key_col, DataType::Utf8), nullable_field(value_col, type_of(v.columns, fields[0]))]
        + match order { None => Seq::empty(), Some(o) => seq![nullable_field(field_order_col(o), DataType::UInt32)] }
}


/// The SQL text of a fold: the union of one subquery per field.
pub open spec fn fold_sql(v: FrameView, fields: Seq<Seq<char>>, key_col: Seq<char>, value_col: Seq<char>, order: Option<Seq<char>>) -> Seq<char> {
    let subqueries = Seq::new(fields.len(), |i: int|
        "SELECT "@ + join(fold_subquery_items(v, fields, i, key_col, value_col, order), ", "@) + " from "@ + parent_of(v));
    "SELECT "@ + join(quoted_all(v.dialect, fold_names(v, key_col, value_col, order)), ", "@)
        + " FROM ("@ + join(subqueries, " UNION ALL "@) + ") as _union"@
}

/// The second step of an ordered fold: the row number (an unsigned 64-bit
/// integer) takes the place of the first column.
pub open spec fn fold_order_step(v: FrameView, base: FrameView, key_col: Seq<char>, value_col: Seq<char>, order: Seq<char>, row_number_item: Seq<char>) -> Result<FrameView, StepError> {
    let names = names_of(fold_kept(base.columns, key_col, value_col)) + seq![key_col, value_col];
    chain_step(
        v,
        select_sql(parent_of(v), quoted_all(base.dialect, names).update(0, row_number_item)),
        select_named(v.columns, names).update(0, nullable_field(order, DataType::UInt64)),
    )
}

/// The text of the subquery that folds `fields[i]`.
fn fold_subquery(
    df: &SqlDataFrame, kept_items: &Vec<String>, fields: &Vec<String>, i: usize, key_col: &str, value_col: &str,
    order: &Option<String>, parent: &String,
) -> (res: String)
    requires
        i < fields@.len(),
        views(kept_items@) == quoted_all(df@.dialect, names_of(fold_kept(df@.columns, key_col@, value_col@))),
        parent@ == parent_of(df@),
    ensures
        res@ == "SELECT "@ + join(fold_subquery_items(df@, views(fields@), i as int,
            key_col@, value_col@, match order { None => None, Some(o) => Some(o@) }), ", "@)
            + " from "@ + parent_of(df@),
{
    let d = df.dialect();
    let mut items = crate::exprs::clone_strings(kept_items);
    let mut key_item = String::new();
    append_string_literal(&mut key_item, fields[i].as_str());
    key_item.append(" AS ");
    append_quoted_ident(&mut key_item, key_col, d.quote_style);
    items.push(key_item);
    let names = field_names(df.schema());
    let value_item = if contains_string(&names, &fields[i]) {
        let q = quote_ident(fields[i].as_str(), d.quote_style);
        aliased_expr(q.as_str(), value_col, d.quote_style)
    } else {
        aliased_expr("NULL", value_col, d.quote_style)
    };
    items.push(value_item);
    match order {
        Some(o) => {
            let mut n = String::new();
            append_decimal(&mut n, (i as u32) as u64);
            let mut name = o.clone();
            name.append("_field");
            items.push(aliased_expr(n.as_str(), name.as_str(), d.quote_style));
        },
        None => {},
    }
    let ghost ov = match order { None => None, Some(o) => Some(o@) };
    assert(views(items@) =~= fold_subquery_items(df@, views(fields@), i as int, key_col@, value_col@, ov));
    let mut res = String::new();
    res.append("SELECT ");
    let csv = join_strings(&items, ", ");
    res.append(csv.as_str());
    res.append(" from ");
    res.append(parent.as_str());
    res
}

/// The names quoted as column references.
pub fn quote_all(d: &Dialect, names: &Vec<String>) -> (res: Vec<String>)
    ensures
        views(res@) == quoted_all(*d, views(names@)),
{
    let mut res: Vec<String> = Vec::new();
    let mut i: usize = 0;
    while i < names.len()
        invariant
            i <= names@.len(),
            res@.len() == i,
            forall|j: int| 0 <= j < i ==> #[trigger] res@[j]@ == quoted_ident(names@[j]@, d.quote_style),
        decreases names@.len() - i,
    {
        res.push(quote_ident(names[i].as_str(), d.quote_style));
        i = i + 1;
    }
    assert(views(res@) =~= quoted_all(*d, views(names@)));
    res
}

impl SqlDataFrame {
    /// Folds the columns `fields` into rows: each input row gives one row per
    /// field, holding the field's name in `key_col` and its value (or NULL
    /// where the frame has no such column) in `value_col`. With an ordering
    /// column `order`, the rows are numbered by it and then by the field's
    /// position (`fold_row_number`), and the number replaces that column.
    pub fn fold(&self, fields: &Vec<String>, value_col: &str, key_col: &str, order: &Option<String>) -> (res: Result<SqlDataFrame, SqlError>)
        requires
            fields@.len() >= 1,
        ensures
            ({
                let ov = match order { None => None, Some(o) => Some(o@) };
                let first = chain_step(
                    self@,
                    fold_sql(self@, views(fields@), key_col@, value_col@, ov),
                    fold_columns(self@, views(fields@), key_col@, value_col@, ov),
                );
                frame_result_matches(res, match order {
                    None => first,
                    Some(o) => and_then(first, |v: FrameView|
                        fold_order_step(v, self@, key_col@, value_col@, o@, fold_row_number(self@.dialect, o@))),
                })
            }),
    {
        let d = self.dialect();
        let parent = self.parent_name();
        let mut shadowed: Vec<String> = Vec::new();
        shadowed.push(key_col.to_string());
        shadowed.push(value_col.to_string());
        assert(views(shadowed@) =~= seq![key_col@, value_col@]);
        let kept_fields = fields_without_names(self.schema(), &shadowed);
        let kept = field_names(&kept_fields);
        let kept_items = quote_all(d, &kept);

        let mut subqueries: Vec<String> = Vec::new();
        let mut i: usize = 0;
        let ghost ov = match order { None => None, Some(o) => Some(o@) };
        while i < fields.len()
            invariant
                i <= fields@.len(),
                subqueries@.len() == i,
                views(kept_items@) == quoted_all(self@.dialect, names_of(fold_kept(self@.columns, key_col@, value_col@))),
                parent@ == parent_of(self@),
                ov == match order { None => None, Some(o) => Some(o@) },
                forall|j: int| 0 <= j < i ==> #[trigger] subqueries@[j]@ == "SELECT "@ + join(fold_subquery_items(self@, views(fields@), j,
                    key_col@, value_col@, ov), ", "@) + " from "@ + parent_of(self@),
            decreases fields@.len() - i,
        {
            subqueries.push(fold_subquery(self, &kept_items, fields, i, key_col, value_col, order, &parent));
            i = i + 1;
        }
        let union_sql = join_strings(&subqueries, " UNION ALL ");

        let mut names = crate::exprs::clone_strings(&kept);
        names.push(key_col.to_string());
        names.push(value_col.to_string());
        let ghost names_kv = views(names@);
        assert(names_kv =~= names_of(fold_kept(self@.columns, key_col@, value_col@)) + seq![key_col@, value_col@]);
        let mut columns = make_nullable(&kept_fields);
        let ghost kept_cols = fields_view(columns@);
        columns.push(Field { name: key_col.to_string(), data_type: DataType::Utf8, nullable: true });
        let value_type = lookup_type(self.schema(), fields[0].as_str());
        columns.push(Field { name: value_col.to_string(), data_type: value_type, nullable: true });
        let mut selected = crate::exprs::clone_strings(&names);
        match order {
            Some(o) => {
                let mut name = o.clone();
                name.append("_field");
                selected.push(name.clone());
                columns.push(Field { name, data_type: DataType::UInt32, nullable: true });
            },
            None => {},
        }
        assert(views(selected@) =~= fold_names(self@, key_col@, value_col@, ov));
        assert(fields_view(columns@) =~= fold_columns(self@, views(fields@), key_col@, value_col@, ov));
        let selection = quote_all(d, &selected);
        let mut sql = String::new();
        sql.append("SELECT ");
        let csv = join_strings(&selection, ", ");
        sql.append(csv.as_str());
        sql.append(" FROM (");
        sql.append(union_sql.as_str());
        sql.append(") as _union");
        assert(views(subqueries@) =~= Seq::new(views(fields@).len(), |i: int|
            "SELECT "@ + join(fold_subquery_items(self@, views(fields@), i, key_col@, value_col@, ov), ", "@) + " from "@ + parent_of(self@)));
        assert(sql@ =~= fold_sql(self@, views(fields@), key_col@, value_col@, ov));
        let dataframe = self.chain_query_str(sql.as_str(), columns)?;
        match order {
            None => Ok(dataframe),
            Some(o) => {
                assert(views(names@) =~= names_kv);
                let mut items = quote_all(d, &names);
                items.set(0, fold_row_number_text(d, o.as_str()));
                let mut out = select_named_fields(dataframe.schema(), &names);
                assert(fields_view(out@).len() == out@.len());
                assert(out@.len() == names@.len());
                out.set(0, Field { name: o.clone(), data_type: DataType::UInt64, nullable: true });
                assert(views(items@) =~= quoted_all(self@.dialect, names_kv).update(0, fold_row_number(self@.dialect, o@)));
                assert(fields_view(out@) =~= select_named(dataframe@.columns, names_kv).update(0, nullable_field(o@, DataType::UInt64)));
                dataframe.select_items(&items, out)
            },
        }
    }
}

} // verus!
