//! What the query builder needs to know of a SQL dialect.
use vstd::prelude::*;
use crate::text::{escape_quotes, append_escaped};

verus! {

/// How a dialect quotes identifiers.
#[derive(Clone, Copy, Debug, PartialEq, Eq, Structural)]
pub enum QuoteStyle {
    DoubleQuote,
    SingleQuote,
    Backtick,
    Bracket,
}

/// The grammar used to parse the SQL text of a dialect.
#[derive(Clone, Copy, Debug, PartialEq, Eq, Structural)]
pub enum ParserDialect {
    Generic,
    BigQuery,
    ClickHouse,
    MySql,
    PostgreSql,
    Redshift,
    Snowflake,
    SQLite,
}

/// How a dialect writes a table of literal values.
#[derive(Debug)]
pub enum ValuesMode {
    /// `SELECT 1 AS a, 2 AS b UNION ALL SELECT 3 AS a, 4 AS b`
    SelectUnion,
    /// `SELECT * FROM (VALUES (1, 2), (3, 4)) AS _values (a, b)`
    ValuesWithSubqueryColumnAliases { explicit_row: bool },
    /// `SELECT column1 AS a, column2 AS b FROM (VALUES (1, 2), (3, 4))`
    ValuesWithSelectColumnAliases { explicit_row: bool, column_prefix: String, base_index: usize },
}

/// The properties of a SQL dialect that the query builder reads.
#[derive(Debug)]
pub struct Dialect {
    pub quote_style: QuoteStyle,
    pub parser_dialect: ParserDialect,
    pub values_mode: ValuesMode,
    /// Columns of a join aggregate are qualified by the subquery they come from.
    pub joinaggregate_fully_qualified: bool,
    /// Columns of an impute query are qualified by the subquery they come from.
    pub impute_fully_qualified: bool,
    /// The dialect accepts `NULLS FIRST` / `NULLS LAST` in an ordering.
    pub supports_null_ordering: bool,
}

impl Clone for ValuesMode {
    fn clone(&self) -> (res: Self)
        ensures
            res == *self,
    {
        match self {
            ValuesMode::SelectUnion => ValuesMode::SelectUnion,
            ValuesMode::ValuesWithSubqueryColumnAliases { explicit_row } =>
                ValuesMode::ValuesWithSubqueryColumnAliases { explicit_row: *explicit_row },
            ValuesMode::ValuesWithSelectColumnAliases { explicit_row, column_prefix, base_index } =>
                ValuesMode::ValuesWithSelectColumnAliases {
                    explicit_row: *explicit_row,
                    column_prefix: column_prefix.clone(),
                    base_index: *base_index,
                },
        }
    }
}

impl Clone for Dialect {
    fn clone(&self) -> (res: Self)
        ensures
            res == *self,
    {
        Dialect {
            quote_style: self.quote_style,
            parser_dialect: self.parser_dialect,
            values_mode: self.values_mode.clone(),
            joinaggregate_fully_qualified: self.joinaggregate_fully_qualified,
            impute_fully_qualified: self.impute_fully_qualified,
            supports_null_ordering: self.supports_null_ordering,
        }
    }
}

/// The character that opens (and, but for brackets, closes) a quoted identifier.
pub open spec fn quote_char(style: QuoteStyle) -> char {
    match style {
        QuoteStyle::DoubleQuote => '"',
        QuoteStyle::SingleQuote => '\'',
        QuoteStyle::Backtick => '`',
        QuoteStyle::Bracket => '[',
    }
}

/// The SQL text of the identifier `name` quoted in the given style: bracketed
/// as is, or else between quote characters with inner quote characters doubled.
pub open spec fn quoted_ident(name: Seq<char>, style: QuoteStyle) -> Seq<char> {
    match style {
        QuoteStyle::Bracket => seq!['['] + name + seq![']'],
        _ => seq![quote_char(style)] + escape_quotes(name, quote_char(style)) + seq![quote_char(style)],
    }
}

fn quote_str(style: QuoteStyle) -> (s: &'static str)
    ensures
        s@ == seq![quote_char(style)],
{
    match style {
        QuoteStyle::DoubleQuote => {
            proof { reveal_strlit("\""); }
            "\""
        },
        QuoteStyle::SingleQuote => {
            proof { reveal_strlit("'"); }
            "'"
        },
        QuoteStyle::Backtick => {
            proof { reveal_strlit("`"); }
            "`"
        },
        QuoteStyle::Bracket => {
            proof { reveal_strlit("["); }
            "["
        },
    }
}

fn quote_as_char(style: QuoteStyle) -> (c: char)
    ensures
        c == quote_char(style),
{
    match style {
        QuoteStyle::DoubleQuote => '"',
        QuoteStyle::SingleQuote => '\'',
        QuoteStyle::Backtick => '`',
        QuoteStyle::Bracket => '[',
    }
}

/// Appends the identifier `name`, quoted in the given style, to `out`.
pub fn append_quoted_ident(out: &mut String, name: &str, style: QuoteStyle)
    ensures
        final(out)@ == old(out)@ + quoted_ident(name@, style),
{
    match style {
        QuoteStyle::Bracket => {
            proof { reveal_strlit("["); reveal_strlit("]"); }
            out.append("[");
            out.append(name);
            out.append("]");
        },
        _ => {
            let q = quote_str(style);
            out.append(q);
            append_escaped(out, name, quote_as_char(style), q);
            out.append(q);
        },
    }
    assert(final(out)@ =~= old(out)@ + quoted_ident(name@, style));
}

/// The identifier `name` quoted in the given style.
pub fn quote_ident(name: &str, style: QuoteStyle) -> (res: String)
    ensures
        res@ == quoted_ident(name@, style),
{
    let mut res = String::new();
    append_quoted_ident(&mut res, name, style);
    res
}

} // verus!
