//! SQL text for column references and aliased select items.
use vstd::prelude::*;
use crate::dialect::{append_quoted_ident, quoted_ident, QuoteStyle};
use crate::text::{join, join_strings, views};

verus! {

/// A reference to column `name`, qualified by `relation` if given, with both
/// identifiers quoted.
pub open spec fn column_ref(relation: Option<Seq<char>>, name: Seq<char>, style: QuoteStyle) -> Seq<char> {
    match relation {
        None => quoted_ident(name, style),
        Some(r) => quoted_ident(r, style) + "."@ + quoted_ident(name, style),
    }
}

/// A select item: `expr AS alias`, with the alias quoted.
pub open spec fn aliased(expr: Seq<char>, alias: Seq<char>, style: QuoteStyle) -> Seq<char> {
    expr + " AS "@ + quoted_ident(alias, style)
}

/// Appends a reference to column `name`, qualified by `relation` if given.
pub fn append_column_ref(out: &mut String, relation: Option<&str>, name: &str, style: QuoteStyle)
    ensures
        final(out)@ == old(out)@ + column_ref(
            match relation { Some(r) => Some(r@), None => None },
            name@,
            style,
        ),
{
    match relation {
        Some(r) => {
            append_quoted_ident(out, r, style);
            out.append(".");
            append_quoted_ident(out, name, style);
        },
        None => {
            append_quoted_ident(out, name, style);
        },
    }
    assert(final(out)@ =~= old(out)@ + column_ref(
        match relation { Some(r) => Some(r@), None => None },
        name@,
        style,
    ));
}

/// A reference to column `name`, qualified by `relation` if given, as an item
/// aliased to `alias`.
pub fn aliased_column(relation: Option<&str>, name: &str, alias: &str, style: QuoteStyle) -> (res: String)
    ensures
        res@ == aliased(
            column_ref(match relation { Some(r) => Some(r@), None => None }, name@, style),
            alias@,
            style,
        ),
{
    let mut res = String::new();
    append_column_ref(&mut res, relation, name, style);
    res.append(" AS ");
    append_quoted_ident(&mut res, alias, style);
    res
}

/// The expression text `expr` as an item aliased to `alias`.
pub fn aliased_expr(expr: &str, alias: &str, style: QuoteStyle) -> (res: String)
    ensures
        res@ == aliased(expr@, alias@, style),
{
    let mut res = String::new();
    res.append(expr);
    res.append(" AS ");
    append_quoted_ident(&mut res, alias, style);
    res
}

} // verus!

verus! {

/// An ordering key: `expr ASC`, with `NULLS FIRST` or `NULLS LAST` where the
/// dialect writes null ordering.
pub open spec fn sort_key(expr: Seq<char>, nulls_first: bool, null_ordering: bool) -> Seq<char> {
    expr + " ASC"@ + if !null_ordering { Seq::empty() } else if nulls_first { " NULLS FIRST"@ } else { " NULLS LAST"@ }
}

/// The row number in the order of `keys`, over all rows from the first to
/// the current one, aliased to `alias`.
pub open spec fn row_number_item(keys: Seq<Seq<char>>, alias: Seq<char>, style: QuoteStyle) -> Seq<char> {
    aliased("row_number() OVER (ORDER BY "@ + join(keys, ", "@) + " ROWS BETWEEN UNBOUNDED PRECEDING AND CURRENT ROW)"@, alias, style)
}

/// An ordering key.
pub fn sort_key_text(expr: &str, nulls_first: bool, null_ordering: bool) -> (res: String)
    ensures
        res@ == sort_key(expr@, nulls_first, null_ordering),
{
    let mut res = String::new();
    res.append(expr);
    res.append(" ASC");
    if null_ordering {
        if nulls_first {
            res.append(" NULLS FIRST");
        } else {
            res.append(" NULLS LAST");
        }
    }
    assert(res@ =~= sort_key(expr@, nulls_first, null_ordering));
    res
}

/// The row number in the order of `keys`, aliased to `alias`.
pub fn row_number_text(keys: &Vec<String>, alias: &str, style: QuoteStyle) -> (res: String)
    ensures
        res@ == row_number_item(views(keys@), alias@, style),
{
    let mut e = String::new();
    e.append("row_number() OVER (ORDER BY ");
    let k = join_strings(keys, ", ");
    e.append(k.as_str());
    e.append(" ROWS BETWEEN UNBOUNDED PRECEDING AND CURRENT ROW)");
    aliased_expr(e.as_str(), alias, style)
}

} // verus!
