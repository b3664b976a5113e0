//! Parsing SQL text into the normalized text of a single query.
use vstd::prelude::*;
use sqlparser::ast::Statement;
use sqlparser::dialect::{
    BigQueryDialect, ClickHouseDialect, GenericDialect, MySqlDialect, PostgreSqlDialect,
    RedshiftSqlDialect, SQLiteDialect, SnowflakeDialect,
};
use sqlparser::parser::{Parser, ParserError};
use sqlparser::tokenizer::Tokenizer;
use crate::dialect::ParserDialect;

verus! {

#[verifier::external_type_specification]
#[verifier::external_body]
pub struct ExParserError(ParserError);

/// Errors of the query builder.
#[derive(Debug)]
pub enum SqlError {
    /// The SQL text did not parse; the parser's message.
    Parse(String),
    /// The parsed text was not a single query.
    Internal(String),
    /// The connection has no table of the requested name.
    MissingTable(String),
}

/// One parsed SQL statement: a query, kept as the parser prints it back, or
/// some other kind of statement.
#[derive(Debug)]
pub enum ParsedStatement {
    Query(String),
    Other,
}

/// The value of a parsed statement.
pub enum StatementView {
    Query(Seq<char>),
    Other,
}

impl View for ParsedStatement {
    type V = StatementView;

    open spec fn view(&self) -> StatementView {
        match self {
            ParsedStatement::Query(q) => StatementView::Query(q@),
            ParsedStatement::Other => StatementView::Other,
        }
    }
}

/// The values of a list of parsed statements.
pub open spec fn statement_views(v: Seq<ParsedStatement>) -> Seq<StatementView> {
    Seq::new(v.len(), |i: int| v[i]@)
}

/// What sqlparser's `Parser::parse_sql` makes of `sql` in the given grammar:
/// `None` where it reports an error, otherwise the statements, each query
/// printed back as text.
pub uninterp spec fn parse_statements(dialect: ParserDialect, sql: Seq<char>) -> Option<Seq<StatementView>>;

/// Calls `sqlparser::parser::Parser::parse_sql` with the grammar of `dialect`
/// and prints back each query it finds (sqlparser's `Display` of `Query`).
/// Claims only that the outcome is a function of the grammar and the text.
/// The parser caps the nesting of statements, queries and expressions at 50
/// (though 35 nested subqueries already exhaust a 2 MiB thread stack), but
/// recurses without a cap through unary operators, bracketed table
/// references and nested types, and it prints and drops the trees it builds
/// (operator chains, set operations) recursively. So it is only called on
/// text whose tokens pass `parse_safe`: operators, weighted brackets and set
/// operators bounded so that parsing, printing and dropping fit in a 2 MiB
/// thread stack.
#[verifier::external_body]
fn parse_sql(dialect: ParserDialect, sql: &str) -> (res: Result<Vec<ParsedStatement>, ParserError>)
    requires
        sql_tokens(dialect, sql@) matches Some(t) && parse_safe(t),
    ensures
        match res {
            Ok(stmts) => parse_statements(dialect, sql@) == Some(statement_views(stmts@)),
            Err(_) => parse_statements(dialect, sql@) is None,
        },
{
    let statements = match dialect {
        ParserDialect::Generic => Parser::parse_sql(&GenericDialect {}, sql),
        ParserDialect::BigQuery => Parser::parse_sql(&BigQueryDialect {}, sql),
        ParserDialect::ClickHouse => Parser::parse_sql(&ClickHouseDialect {}, sql),
        ParserDialect::MySql => Parser::parse_sql(&MySqlDialect {}, sql),
        ParserDialect::PostgreSql => Parser::parse_sql(&PostgreSqlDialect {}, sql),
        ParserDialect::Redshift => Parser::parse_sql(&RedshiftSqlDialect {}, sql),
        ParserDialect::Snowflake => Parser::parse_sql(&SnowflakeDialect {}, sql),
        ParserDialect::SQLite => Parser::parse_sql(&SQLiteDialect {}, sql),
    }?;
    Ok(statements.into_iter().map(|s| match s {
        Statement::Query(q) => ParsedStatement::Query(q.to_string()),
        _ => ParsedStatement::Other,
    }).collect())
}

/// The message of a sqlparser `ParserError` (its `Display`), which always
/// begins with `sql parser error: `; the rest of it is not stated.
#[verifier::external_body]
fn parser_error_message(e: &ParserError) -> (msg: String)
    ensures
        msg@.len() >= 18,
        msg@.take(18) == "sql parser error: "@,
{
    e.to_string()
}

/// A token of SQL text, as far as its nesting goes.
#[derive(Clone, Copy, Debug, PartialEq, Eq, Structural)]
pub enum SqlToken {
    /// `(`, `[` or `{`.
    Open,
    /// `)`, `]` or `}`.
    Close,
    /// `,` or `;`: the end of a list item or of a statement.
    Separator,
    /// `UNION`, `EXCEPT` or `INTERSECT`.
    SetOperator,
    /// An operator: a symbol other than a bracket or separator, or an
    /// operator keyword. Operators are what the parser recurses on (unary
    /// operators, nested types) and what a parsed expression nests by.
    Operator,
    /// An identifier, keyword, literal, comment or whitespace.
    Plain,
}

/// What sqlparser's `Tokenizer::tokenize` makes of `sql` in the given
/// grammar, each token as its `Display` prints it: `None` where it reports
/// an error.
pub uninterp spec fn sql_tokens(dialect: ParserDialect, sql: Seq<char>) -> Option<Seq<Seq<char>>>;

/// Calls `sqlparser::tokenizer::Tokenizer::tokenize` with the grammar of
/// `dialect` (the tokenizer that `Parser::parse_sql` runs first) and prints
/// each token; an error becomes the parser's error, as `Parser::parse_sql`
/// reports it. Claims only that the outcome is a function of the grammar and
/// the text.
#[verifier::external_body]
fn tokenize(dialect: ParserDialect, sql: &str) -> (res: Result<Vec<String>, ParserError>)
    ensures
        match res {
            Ok(tokens) => sql_tokens(dialect, sql@) == Some(crate::text::views(tokens@)),
            Err(_) => sql_tokens(dialect, sql@) is None,
        },
{
    let tokens = match dialect {
        ParserDialect::Generic => Tokenizer::new(&GenericDialect {}, sql).tokenize(),
        ParserDialect::BigQuery => Tokenizer::new(&BigQueryDialect {}, sql).tokenize(),
        ParserDialect::ClickHouse => Tokenizer::new(&ClickHouseDialect {}, sql).tokenize(),
        ParserDialect::MySql => Tokenizer::new(&MySqlDialect {}, sql).tokenize(),
        ParserDialect::PostgreSql => Tokenizer::new(&PostgreSqlDialect {}, sql).tokenize(),
        ParserDialect::Redshift => Tokenizer::new(&RedshiftSqlDialect {}, sql).tokenize(),
        ParserDialect::Snowflake => Tokenizer::new(&SnowflakeDialect {}, sql).tokenize(),
        ParserDialect::SQLite => Tokenizer::new(&SQLiteDialect {}, sql).tokenize(),
    }.map_err(ParserError::from)?;
    Ok(tokens.iter().map(|t| t.to_string()).collect())
}

/// Whether `t` spells `upper` with each letter in upper or lower case.
pub open spec fn spelled(t: Seq<char>, upper: Seq<char>, lower: Seq<char>) -> bool {
    t.len() == upper.len() && t.len() == lower.len()
        && forall|i: int| 0 <= i < t.len() ==> t[i] == upper[i] || t[i] == lower[i]
}

/// Whether `t` is whitespace only.
pub open spec fn is_blank(t: Seq<char>) -> bool {
    t.len() > 0 && forall|i: int| 0 <= i < t.len() ==> t[i] == ' ' || t[i] == '\t' || t[i] == '\n' || t[i] == '\r'
}

/// Whether `c` can begin an identifier, keyword, number, string or quoted
/// identifier.
pub open spec fn begins_word(c: char) -> bool {
    ('a' <= c && c <= 'z') || ('A' <= c && c <= 'Z') || ('0' <= c && c <= '9')
        || c == '_' || c == '\'' || c == '"' || c == '`' || c == '$'
}

/// Whether `t` is one of the keywords that act as operators.
pub open spec fn is_operator_word(t: Seq<char>) -> bool {
    ||| spelled(t, "AND"@, "and"@)
    ||| spelled(t, "OR"@, "or"@)
    ||| spelled(t, "XOR"@, "xor"@)
    ||| spelled(t, "NOT"@, "not"@)
    ||| spelled(t, "IN"@, "in"@)
    ||| spelled(t, "IS"@, "is"@)
    ||| spelled(t, "LIKE"@, "like"@)
    ||| spelled(t, "ILIKE"@, "ilike"@)
    ||| spelled(t, "SIMILAR"@, "similar"@)
    ||| spelled(t, "BETWEEN"@, "between"@)
    ||| spelled(t, "AT"@, "at"@)
    ||| spelled(t, "OPERATOR"@, "operator"@)
    ||| spelled(t, "ANY"@, "any"@)
    ||| spelled(t, "ALL"@, "all"@)
    ||| spelled(t, "DISTINCT"@, "distinct"@)
    ||| spelled(t, "ARRAY"@, "array"@)
    ||| spelled(t, "CASE"@, "case"@)
    ||| spelled(t, "INTERVAL"@, "interval"@)
    ||| spelled(t, "COLLATE"@, "collate"@)
    ||| spelled(t, "EXISTS"@, "exists"@)
    ||| spelled(t, "SELECT"@, "select"@)
    ||| spelled(t, "WITH"@, "with"@)
}

/// The kind of a printed token. Only a bracket prints as a bracket, only a
/// comma or semicolon as one, and only the keyword as an unquoted set
/// operator; every symbol that is none of these counts as an operator.
pub open spec fn token_kind(t: Seq<char>) -> SqlToken {
    if t == "("@ || t == "["@ || t == "{"@ {
        SqlToken::Open
    } else if t == ")"@ || t == "]"@ || t == "}"@ {
        SqlToken::Close
    } else if t == ","@ || t == ";"@ {
        SqlToken::Separator
    } else if spelled(t, "UNION"@, "union"@) || spelled(t, "EXCEPT"@, "except"@) || spelled(t, "INTERSECT"@, "intersect"@) {
        SqlToken::SetOperator
    } else if is_blank(t) || t.len() == 0 {
        SqlToken::Plain
    } else if is_operator_word(t) || !begins_word(t[0]) {
        SqlToken::Operator
    } else {
        SqlToken::Plain
    }
}

fn operator_word(t: &str) -> (b: bool)
    ensures
        b == is_operator_word(t@),
{
    spells(t, "AND", "and") || spells(t, "OR", "or") || spells(t, "XOR", "xor") || spells(t, "NOT", "not")
        || spells(t, "IN", "in") || spells(t, "IS", "is") || spells(t, "LIKE", "like") || spells(t, "ILIKE", "ilike")
        || spells(t, "SIMILAR", "similar") || spells(t, "BETWEEN", "between") || spells(t, "AT", "at")
        || spells(t, "OPERATOR", "operator") || spells(t, "ANY", "any") || spells(t, "ALL", "all")
        || spells(t, "DISTINCT", "distinct") || spells(t, "ARRAY", "array") || spells(t, "CASE", "case")
        || spells(t, "INTERVAL", "interval") || spells(t, "COLLATE", "collate") || spells(t, "EXISTS", "exists")
        || spells(t, "SELECT", "select") || spells(t, "WITH", "with")
}

fn spells(t: &str, upper: &str, lower: &str) -> (b: bool)
    ensures
        b == spelled(t@, upper@, lower@),
{
    let n = t.unicode_len();
    if n != upper.unicode_len() || n != lower.unicode_len() {
        return false;
    }
    let mut i: usize = 0;
    while i < n
        invariant
            i <= n,
            n == t@.len(),
            n == upper@.len(),
            n == lower@.len(),
            forall|j: int| 0 <= j < i ==> t@[j] == upper@[j] || t@[j] == lower@[j],
        decreases n - i,
    {
        let c = t.get_char(i);
        if c != upper.get_char(i) && c != lower.get_char(i) {
            return false;
        }
        i = i + 1;
    }
    true
}

fn blank(t: &str) -> (b: bool)
    ensures
        b == is_blank(t@),
{
    let n = t.unicode_len();
    if n == 0 {
        return false;
    }
    let mut i: usize = 0;
    while i < n
        invariant
            i <= n,
            n == t@.len(),
            forall|j: int| 0 <= j < i ==> t@[j] == ' ' || t@[j] == '\t' || t@[j] == '\n' || t@[j] == '\r',
        decreases n - i,
    {
        let c = t.get_char(i);
        if c != ' ' && c != '\t' && c != '\n' && c != '\r' {
            return false;
        }
        i = i + 1;
    }
    true
}

/// The kind of a printed token.
pub fn classify_token(t: &str) -> (k: SqlToken)
    ensures
        k == token_kind(t@),
{
    proof {
        reveal_strlit("(");
        reveal_strlit("[");
        reveal_strlit("{");
        reveal_strlit(")");
        reveal_strlit("]");
        reveal_strlit("}");
        reveal_strlit(",");
        reveal_strlit(";");
    }
    if spells(t, "(", "(") || spells(t, "[", "[") || spells(t, "{", "{") {
        assert(t@ == "("@ || t@ == "["@ || t@ == "{"@) by {
            if spelled(t@, "("@, "("@) { assert(t@ =~= "("@); }
            if spelled(t@, "["@, "["@) { assert(t@ =~= "["@); }
            if spelled(t@, "{"@, "{"@) { assert(t@ =~= "{"@); }
        }
        SqlToken::Open
    } else if spells(t, ")", ")") || spells(t, "]", "]") || spells(t, "}", "}") {
        assert(!(t@ == "("@ || t@ == "["@ || t@ == "{"@));
        assert(t@ == ")"@ || t@ == "]"@ || t@ == "}"@) by {
            if spelled(t@, ")"@, ")"@) { assert(t@ =~= ")"@); }
            if spelled(t@, "]"@, "]"@) { assert(t@ =~= "]"@); }
            if spelled(t@, "}"@, "}"@) { assert(t@ =~= "}"@); }
        }
        SqlToken::Close
    } else {
        assert(!(t@ == "("@ || t@ == "["@ || t@ == "{"@));
        assert(!(t@ == ")"@ || t@ == "]"@ || t@ == "}"@));
        let comma = spells(t, ",", ",");
        let semi = spells(t, ";", ";");
        assert(comma == (t@ == ","@)) by { if comma { assert(t@ =~= ","@); } }
        assert(semi == (t@ == ";"@)) by { if semi { assert(t@ =~= ";"@); } }
        if comma || semi {
            SqlToken::Separator
        } else if spells(t, "UNION", "union") || spells(t, "EXCEPT", "except") || spells(t, "INTERSECT", "intersect") {
            SqlToken::SetOperator
        } else if blank(t) || t.unicode_len() == 0 {
            SqlToken::Plain
        } else {
            let c = t.get_char(0);
            let word = ('a' <= c && c <= 'z') || ('A' <= c && c <= 'Z') || ('0' <= c && c <= '9')
                || c == '_' || c == '\'' || c == '"' || c == '`' || c == '$';
            if operator_word(t) || !word {
                SqlToken::Operator
            } else {
                SqlToken::Plain
            }
        }
    }
}

/// How deeply a text may nest (by `nesting_peak`) for the parser to be
/// called on it: 20 brackets, or 80 operators in one expression.
pub const PARSE_NESTING_LIMIT: usize = 80;

/// How many set operators a text may hold for the parser to be called on it.
pub const PARSE_SET_OPERATION_LIMIT: usize = 1000;

/// The number of set operators among the tokens.
pub open spec fn set_op_count(tokens: Seq<Seq<char>>) -> int
    decreases tokens.len(),
{
    if tokens.len() == 0 {
        0
    } else {
        set_op_count(tokens.drop_last()) + if token_kind(tokens.last()) == SqlToken::SetOperator { 1int } else { 0int }
    }
}

/// Whether the parser may be called on text of these tokens.
pub open spec fn parse_safe(tokens: Seq<Seq<char>>) -> bool {
    nesting_peak(tokens) <= PARSE_NESTING_LIMIT && set_op_count(tokens) <= PARSE_SET_OPERATION_LIMIT
}

/// The runs of a scan of tokens: for the top level and for each bracket
/// still open, the weight of the tokens read at that level since its last
/// separator or set operator (an opening bracket weighs four, an operator
/// one, anything else nothing).
pub open spec fn nest_runs(tokens: Seq<Seq<char>>) -> Seq<int>
    decreases tokens.len(),
{
    if tokens.len() == 0 {
        seq![0int]
    } else {
        let r = nest_runs(tokens.drop_last());
        let last = r.len() - 1;
        match token_kind(tokens.last()) {
            SqlToken::Open => r.update(last, r[last] + 4).push(0),
            SqlToken::Close => if r.len() > 1 { r.drop_last() } else { r },
            SqlToken::Separator | SqlToken::SetOperator => r.update(last, 0),
            SqlToken::Plain => r,
            SqlToken::Operator => r.update(last, r[last] + 1),
        }
    }
}

/// The sum of the runs.
pub open spec fn run_sum(runs: Seq<int>) -> int
    decreases runs.len(),
{
    if runs.len() == 0 { 0 } else { run_sum(runs.drop_last()) + runs.last() }
}

/// The largest sum of runs over the whole scan: how deeply the text nests.
pub open spec fn nesting_peak(tokens: Seq<Seq<char>>) -> int
    decreases tokens.len(),
{
    if tokens.len() == 0 {
        0
    } else {
        let p = nesting_peak(tokens.drop_last());
        let t = run_sum(nest_runs(tokens));
        if p >= t { p } else { t }
    }
}

proof fn lemma_run_sum_push(r: Seq<int>, x: int)
    ensures
        run_sum(r.push(x)) == run_sum(r) + x,
{
    assert(r.push(x).drop_last() =~= r);
}

proof fn lemma_run_sum_update_last(r: Seq<int>, x: int)
    requires
        r.len() >= 1,
    ensures
        run_sum(r.update(r.len() - 1, x)) == run_sum(r.drop_last()) + x,
{
    assert(r.update(r.len() - 1, x).drop_last() =~= r.drop_last());
}

proof fn lemma_runs_nonnegative(tokens: Seq<Seq<char>>)
    ensures
        nest_runs(tokens).len() >= 1,
        forall|k: int| 0 <= k < nest_runs(tokens).len() ==> #[trigger] nest_runs(tokens)[k] >= 0,
    decreases tokens.len(),
{
    if tokens.len() > 0 {
        lemma_runs_nonnegative(tokens.drop_last());
    }
}

proof fn lemma_run_sum_bounds(r: Seq<int>)
    requires
        forall|k: int| 0 <= k < r.len() ==> #[trigger] r[k] >= 0,
    ensures
        forall|k: int| 0 <= k < r.len() ==> #[trigger] r[k] <= run_sum(r),
        run_sum(r) >= 0,
    decreases r.len(),
{
    if r.len() > 0 {
        let d = r.drop_last();
        assert forall|k: int| 0 <= k < d.len() implies #[trigger] d[k] >= 0 by {
            assert(d[k] == r[k]);
        }
        lemma_run_sum_bounds(d);
        assert forall|k: int| 0 <= k < r.len() implies #[trigger] r[k] <= run_sum(r) by {
            if k < d.len() {
                assert(d[k] == r[k]);
            }
        }
    }
}

proof fn lemma_peak_grows(tokens: Seq<Seq<char>>, n: int)
    requires
        0 <= n <= tokens.len(),
    ensures
        nesting_peak(tokens.take(n)) <= nesting_peak(tokens),
    decreases tokens.len() - n,
{
    if n < tokens.len() {
        lemma_peak_grows(tokens, n + 1);
        assert(tokens.take(n + 1).drop_last() =~= tokens.take(n));
    } else {
        assert(tokens.take(n) =~= tokens);
    }
}

proof fn lemma_set_ops_grow(tokens: Seq<Seq<char>>, n: int)
    requires
        0 <= n <= tokens.len(),
    ensures
        set_op_count(tokens.take(n)) <= set_op_count(tokens),
    decreases tokens.len() - n,
{
    if n < tokens.len() {
        lemma_set_ops_grow(tokens, n + 1);
        assert(tokens.take(n + 1).drop_last() =~= tokens.take(n));
    } else {
        assert(tokens.take(n) =~= tokens);
    }
}

/// The runs as integers.
pub open spec fn runs_view(r: Seq<usize>) -> Seq<int> {
    Seq::new(r.len(), |k: int| r[k] as int)
}

/// Whether the tokens nest no more deeply than `limit`.
pub fn nesting_within(tokens: &Vec<String>, limit: usize, set_op_limit: usize) -> (ok: bool)
    requires
        limit <= 1000,
        set_op_limit <= 1000,
    ensures
        ok == (nesting_peak(crate::text::views(tokens@)) <= limit && set_op_count(crate::text::views(tokens@)) <= set_op_limit),
{
    let mut runs: Vec<usize> = Vec::new();
    runs.push(0);
    let mut total: usize = 0;
    let mut set_ops: usize = 0;
    let mut i: usize = 0;
    assert(runs_view(runs@) =~= seq![0int]);
    let ghost toks = crate::text::views(tokens@);
    assert(toks.take(0) =~= Seq::<Seq<char>>::empty());
    assert(seq![0int].drop_last() =~= Seq::<int>::empty());
    assert(run_sum(seq![0int]) == 0) by {
        reveal_with_fuel(run_sum, 2);
        assert(seq![0int].last() == 0);
    }
    while i < tokens.len()
        invariant
            i <= tokens@.len(),
            toks == crate::text::views(tokens@),
            limit <= 1000,
            runs_view(runs@) == nest_runs(toks.take(i as int)),
            total == run_sum(nest_runs(toks.take(i as int))),
            total <= limit,
            nesting_peak(toks.take(i as int)) <= limit,
            set_op_limit <= 1000,
            set_ops == set_op_count(toks.take(i as int)),
            set_ops <= set_op_limit,
        decreases tokens@.len() - i,
    {
        let ghost before = toks.take(i as int);
        let ghost after = toks.take(i + 1);
        proof {
            assert(after.drop_last() =~= before);
            assert(after.last() == tokens@[i as int]@);
            lemma_runs_nonnegative(before);
            lemma_run_sum_bounds(nest_runs(before));
        }
        let ghost r = nest_runs(before);
        let last = runs.len() - 1;
        assert(runs@[last as int] as int == r[last as int]);
        let kind = classify_token(tokens[i].as_str());
        match kind {
            SqlToken::Open => {
                let v = runs[last];
                runs.set(last, v + 4);
                runs.push(0);
                total = total + 4;
                proof {
                    lemma_run_sum_update_last(r, r[last as int] + 4);
                    lemma_run_sum_push(r.update(last as int, r[last as int] + 4), 0);
                    assert(r.update(last as int, r[last as int] + 4) =~= r.drop_last().push(r[last as int] + 4));
                    assert(r =~= r.drop_last().push(r[last as int]));
                    lemma_run_sum_push(r.drop_last(), r[last as int]);
                }
            },
            SqlToken::Close => {
                if runs.len() > 1 {
                    let v = runs[last];
                    runs.pop();
                    total = total - v;
                    proof {
                        assert(r =~= r.drop_last().push(r[last as int]));
                        lemma_run_sum_push(r.drop_last(), r[last as int]);
                    }
                }
            },
            SqlToken::Separator | SqlToken::SetOperator => {
                let v = runs[last];
                runs.set(last, 0);
                total = total - v;
                proof {
                    lemma_run_sum_update_last(r, 0);
                    assert(r =~= r.drop_last().push(r[last as int]));
                    lemma_run_sum_push(r.drop_last(), r[last as int]);
                }
            },
            SqlToken::Plain => {},
            SqlToken::Operator => {
                let v = runs[last];
                runs.set(last, v + 1);
                total = total + 1;
                proof {
                    lemma_run_sum_update_last(r, r[last as int] + 1);
                    assert(r =~= r.drop_last().push(r[last as int]));
                    lemma_run_sum_push(r.drop_last(), r[last as int]);
                }
            },
        }
        assert(runs_view(runs@) =~= nest_runs(after));
        if kind == SqlToken::SetOperator {
            set_ops = set_ops + 1;
        }
        assert(set_ops == set_op_count(after));
        if total > limit {
            proof { lemma_peak_grows(toks, i + 1); }
            return false;
        }
        if set_ops > set_op_limit {
            proof { lemma_set_ops_grow(toks, i + 1); }
            return false;
        }
        i = i + 1;
    }
    assert(toks.take(tokens@.len() as int) =~= toks);
    true
}

/// What becomes of a SQL text that is meant to hold a query.
pub enum QueryOutcome {
    /// The first statement is a query, printed back as this text.
    Query(Seq<char>),
    /// The parser reported an error.
    ParseFailure,
    /// The text holds no statement.
    Empty,
    /// The first statement is not a query.
    NotQuery,
    /// The text nests too deeply to be parsed.
    TooDeep,
}

/// The outcome for a list of parsed statements: the first one decides.
pub open spec fn outcome_of_statements(stmts: Seq<StatementView>) -> QueryOutcome {
    if stmts.len() == 0 {
        QueryOutcome::Empty
    } else {
        match stmts[0] {
            StatementView::Query(q) => QueryOutcome::Query(q),
            StatementView::Other => QueryOutcome::NotQuery,
        }
    }
}

/// The outcome of parsing `sql` in the given grammar.
pub open spec fn query_outcome(dialect: ParserDialect, sql: Seq<char>) -> QueryOutcome {
    match sql_tokens(dialect, sql) {
        None => QueryOutcome::ParseFailure,
        Some(tokens) => if !parse_safe(tokens) {
            QueryOutcome::TooDeep
        } else {
            match parse_statements(dialect, sql) {
                None => QueryOutcome::ParseFailure,
                Some(stmts) => outcome_of_statements(stmts),
            }
        },
    }
}

/// Whether `res` is what the outcome `o` calls for: the query's text, the
/// parser's error, or the internal error for an empty or non-query result.
pub open spec fn result_matches_outcome(res: Result<String, SqlError>, o: QueryOutcome) -> bool {
    match o {
        QueryOutcome::Query(q) => res matches Ok(t) && t@ == q,
        QueryOutcome::ParseFailure => res matches Err(SqlError::Parse(_)),
        QueryOutcome::Empty => res matches Err(SqlError::Internal(m)) && m@ == "Parser result empty"@,
        QueryOutcome::NotQuery => res matches Err(SqlError::Internal(m)) && m@ == "Parser result was not a query"@,
        QueryOutcome::TooDeep => res matches Err(SqlError::Internal(m)) && m@ == "SQL text nests too deeply to parse"@,
    }
}

/// Picks the query out of a list of parsed statements: the first statement
/// must be a query.
pub fn query_from_statements(statements: Vec<ParsedStatement>) -> (res: Result<String, SqlError>)
    ensures
        result_matches_outcome(res, outcome_of_statements(statement_views(statements@))),
{
    let mut statements = statements;
    if statements.len() == 0 {
        return Err(SqlError::Internal("Parser result empty".to_string()));
    }
    let first = statements.swap_remove(0);
    match first {
        ParsedStatement::Query(q) => Ok(q),
        ParsedStatement::Other => Err(SqlError::Internal("Parser result was not a query".to_string())),
    }
}

/// Parses `query` with the grammar of `dialect`; the first statement must be
/// a query, which is returned as the parser prints it back. Text that nests
/// more deeply than `PARSE_NESTING_LIMIT`, or holds more than
/// `PARSE_SET_OPERATION_LIMIT` set operators, is refused without parsing.
pub fn parse_sql_query(query: &str, dialect: ParserDialect) -> (res: Result<String, SqlError>)
    ensures
        result_matches_outcome(res, query_outcome(dialect, query@)),
{
    match tokenize(dialect, query) {
        Err(e) => Err(SqlError::Parse(parser_error_message(&e))),
        Ok(tokens) => {
            if !nesting_within(&tokens, PARSE_NESTING_LIMIT, PARSE_SET_OPERATION_LIMIT) {
                return Err(SqlError::Internal("SQL text nests too deeply to parse".to_string()));
            }
            match parse_sql(dialect, query) {
                Ok(statements) => query_from_statements(statements),
                Err(e) => Err(SqlError::Parse(parser_error_message(&e))),
            }
        },
    }
}

} // verus!
