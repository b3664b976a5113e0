use sqlparser::dialect::GenericDialect;
use sqlparser::parser::Parser;
use vegafusion_sql::dialect::{Dialect, ParserDialect, QuoteStyle, ValuesMode};
use vegafusion_sql::exprs::{ColumnSpec, CompiledExpr};
use vegafusion_sql::frame::SqlDataFrame;
use vegafusion_sql::parse::{parse_sql_query, SqlError};
use vegafusion_sql::schema::{DataType, Field};
use vegafusion_sql::sources::TableSchema;

fn generic_dialect() -> Dialect {
    Dialect {
        quote_style: QuoteStyle::DoubleQuote,
        parser_dialect: ParserDialect::Generic,
        values_mode: ValuesMode::ValuesWithSubqueryColumnAliases { explicit_row: false },
        joinaggregate_fully_qualified: false,
        impute_fully_qualified: false,
        supports_null_ordering: true,
    }
}

fn normalized(sql: &str) -> String {
    Parser::parse_sql(&GenericDialect {}, sql).unwrap()[0].to_string()
}

fn strings(v: &[&str]) -> Vec<String> {
    v.iter().map(|s| s.to_string()).collect()
}

fn field(name: &str, data_type: DataType, nullable: bool) -> Field {
    Field { name: name.to_string(), data_type, nullable }
}

fn abc_fields() -> Vec<Field> {
    vec![
        field("a", DataType::Int64, false),
        field("b", DataType::Int64, false),
        field("c", DataType::Utf8, true),
    ]
}

fn names(df: &SqlDataFrame) -> Vec<String> {
    df.schema().iter().map(|f| f.name.clone()).collect()
}

fn cols(df: &SqlDataFrame) -> Vec<(String, DataType, bool)> {
    df.schema().iter().map(|f| (f.name.clone(), f.data_type, f.nullable)).collect()
}

fn abc_values() -> SqlDataFrame {
    let columns = abc_fields();
    let rows = vec![
        strings(&["1", "2", "'A'"]),
        strings(&["3", "4", "'BB'"]),
        strings(&["5", "6", "'CCC'"]),
    ];
    SqlDataFrame::from_values("datafusion", generic_dialect(), &columns, &rows).unwrap()
}

fn col(name: &str) -> CompiledExpr {
    CompiledExpr {
        sql: format!("\"{name}\""),
        item: format!("\"{name}\""),
        output: ColumnSpec::Named(name.to_string()),
        data_type: DataType::Int64,
    }
}

fn aliased(sql: &str, alias: &str) -> CompiledExpr {
    CompiledExpr {
        sql: sql.to_string(),
        item: format!("{sql} AS \"{alias}\""),
        output: ColumnSpec::Named(alias.to_string()),
        data_type: DataType::Float64,
    }
}

#[test]
fn values_frame_query_text() {
    let df = abc_values();
    assert_eq!(
        df.query_string(),
        "SELECT * FROM (VALUES (1, 2, 'A'), (3, 4, 'BB'), (5, 6, 'CCC')) AS \"_values\" (\"a\", \"b\", \"c\")"
    );
    assert_eq!(df.query_count(), 1);
    assert_eq!(df.parent_name(), "values0");
    assert_eq!(cols(&df), columns_of(&abc_fields()));
    assert_eq!(df.conn_id(), "datafusion");
}

#[test]
fn values_select_union_mode() {
    let mut d = generic_dialect();
    d.values_mode = ValuesMode::SelectUnion;
    let columns = vec![field("a", DataType::Int64, true), field("b", DataType::Int64, true)];
    let rows = vec![strings(&["1", "2"]), strings(&["3", "4"])];
    let df = SqlDataFrame::from_values("c", d, &columns, &rows).unwrap();
    assert_eq!(
        df.query_string(),
        "SELECT 1 AS \"a\", 2 AS \"b\" UNION ALL SELECT 3 AS \"a\", 4 AS \"b\""
    );
}

#[test]
fn values_select_column_aliases_mode() {
    let mut d = generic_dialect();
    d.values_mode = ValuesMode::ValuesWithSelectColumnAliases {
        explicit_row: true,
        column_prefix: "column".to_string(),
        base_index: 1,
    };
    let columns = vec![field("a", DataType::Int64, true), field("b", DataType::Int64, true)];
    let rows = vec![strings(&["1", "2"])];
    let df = SqlDataFrame::from_values("c", d, &columns, &rows).unwrap();
    assert_eq!(
        df.query_string(),
        "SELECT \"column1\" AS \"a\", \"column2\" AS \"b\" FROM (VALUES ROW(1, 2))"
    );
}

#[test]
fn try_new_reads_table() {
    let tables = vec![
        TableSchema {
            name: "stock".to_string(),
            columns: vec![field("symbol", DataType::Utf8, false), field("price", DataType::Float64, true)],
        },
        TableSchema { name: "other".to_string(), columns: vec![field("x", DataType::Int32, true)] },
    ];
    let df = SqlDataFrame::try_new("sqlite", generic_dialect(), &tables, "stock").unwrap();
    assert_eq!(df.query_string(), "SELECT \"symbol\", \"price\" FROM stock");
    assert_eq!(df.parent_name(), "stock_0");
    assert_eq!(
        cols(&df),
        vec![("symbol".to_string(), DataType::Utf8, false), ("price".to_string(), DataType::Float64, true)]
    );
}

#[test]
fn try_new_missing_table() {
    let tables = vec![TableSchema { name: "stock".to_string(), columns: vec![field("symbol", DataType::Utf8, true)] }];
    match SqlDataFrame::try_new("sqlite", generic_dialect(), &tables, "cars") {
        Err(SqlError::MissingTable(m)) => assert_eq!(m, "Connection has no table named cars"),
        other => panic!("unexpected result: {other:?}"),
    }
}

#[test]
fn filter_then_limit_chain() {
    let df = abc_values();
    let df = df.filter("\"a\" > 1").unwrap();
    assert_eq!(df.parent_name(), "values1");
    let df = df.limit(2).unwrap();
    assert_eq!(df.query_count(), 3);
    assert_eq!(df.parent_name(), "values2");
    let expected = format!(
        "WITH values0 AS ({}), values1 AS (SELECT * FROM values0 WHERE \"a\" > 1) SELECT * FROM values1 LIMIT 2",
        abc_values().query_string()
    );
    assert_eq!(df.query_string(), expected);
    assert_eq!(df.query_string(), normalized(&expected));
}

#[test]
fn negative_limit_is_written_with_sign() {
    let df = abc_values();
    let df = df.limit(-1).unwrap();
    assert!(df.query_string().ends_with("SELECT * FROM values0 LIMIT -1"));
}

#[test]
fn sort_with_and_without_limit() {
    let df = abc_values();
    let sorted = df.sort(&strings(&["\"a\" ASC NULLS FIRST", "\"b\" DESC"]), Some(10)).unwrap();
    assert!(sorted
        .query_string()
        .ends_with("SELECT * FROM values0 ORDER BY \"a\" ASC NULLS FIRST, \"b\" DESC LIMIT 10"));
    let plain = df.sort(&Vec::new(), None).unwrap();
    assert!(plain.query_string().ends_with(") SELECT * FROM values0"));
    assert_eq!(cols(&plain), cols(&df));
}

#[test]
fn select_builds_schema() {
    let df = abc_values();
    let exprs = vec![
        col("a"),
        aliased("\"b\" * 2", "b2"),
        CompiledExpr { sql: "*".to_string(), item: "*".to_string(), output: ColumnSpec::Wildcard, data_type: DataType::Null },
    ];
    let df2 = df.select(&exprs).unwrap();
    assert!(df2.query_string().ends_with("SELECT \"a\", \"b\" * 2 AS \"b2\", * FROM values0"));
    assert_eq!(
        cols(&df2),
        vec![
            ("a".to_string(), DataType::Int64, true),
            ("b2".to_string(), DataType::Float64, true),
            ("a".to_string(), DataType::Int64, false),
            ("b".to_string(), DataType::Int64, false),
            ("c".to_string(), DataType::Utf8, true),
        ]
    );
}

#[test]
fn aggregate_with_groups() {
    let df = abc_values();
    let df2 = df.aggregate(&vec![col("c")], &vec![aliased("sum(\"a\")", "sum_a")]).unwrap();
    assert!(df2
        .query_string()
        .ends_with("SELECT sum(\"a\") AS \"sum_a\", \"c\" FROM values0 GROUP BY \"c\""));
    assert_eq!(
        cols(&df2),
        vec![("sum_a".to_string(), DataType::Float64, true), ("c".to_string(), DataType::Int64, true)]
    );
}

#[test]
fn aggregate_without_groups() {
    let df = abc_values();
    let df2 = df.aggregate(&Vec::new(), &vec![aliased("count(*)", "n")]).unwrap();
    assert!(df2.query_string().ends_with("SELECT count(*) AS \"n\" FROM values0"));
    assert_eq!(names(&df2), strings(&["n"]));
}

#[test]
fn select_items_uses_given_columns() {
    let df = abc_values();
    let df2 = df.select_items(&strings(&["\"c\""]), vec![field("c", DataType::Utf8, true)]).unwrap();
    assert!(df2.query_string().ends_with("SELECT \"c\" FROM values0"));
    assert_eq!(names(&df2), strings(&["c"]));
}

#[test]
fn make_select_star_reads_parent() {
    let df = abc_values().filter("true").unwrap();
    assert_eq!(df.make_select_star().unwrap(), "SELECT * FROM values1");
}

#[test]
fn as_query_names_earlier_queries() {
    let df = abc_values().filter("\"a\" > 1").unwrap().filter("\"b\" < 6").unwrap();
    let q = df.as_query();
    assert_eq!(q.with.len(), 2);
    assert_eq!(q.with[0].name, "values0");
    assert_eq!(q.with[1].name, "values1");
    assert_eq!(q.with[1].query, "SELECT * FROM values0 WHERE \"a\" > 1");
    assert_eq!(q.body, "SELECT * FROM values1 WHERE \"b\" < 6");
    assert_eq!(q.to_sql(), df.query_string());
}

#[test]
fn parse_sql_query_first_statement_decides() {
    assert_eq!(
        parse_sql_query("select 1; insert into t values (2)", ParserDialect::Generic).unwrap(),
        "SELECT 1"
    );
}

#[test]
fn fingerprint_depends_on_query_and_connection() {
    let a = abc_values();
    let b = abc_values();
    assert_eq!(a.fingerprint(), b.fingerprint());
    let c = a.filter("true").unwrap();
    assert_ne!(a.fingerprint(), c.fingerprint());
    let rows = vec![
        strings(&["1", "2", "'A'"]),
        strings(&["3", "4", "'BB'"]),
        strings(&["5", "6", "'CCC'"]),
    ];
    let d = SqlDataFrame::from_values("sqlite", generic_dialect(), &abc_fields(), &rows).unwrap();
    assert_eq!(d.query_string(), a.query_string());
    assert_ne!(a.fingerprint(), d.fingerprint());
}

#[test]
fn dialect_is_kept_through_chain() {
    let df = abc_values().filter("true").unwrap();
    assert_eq!(df.dialect().quote_style, QuoteStyle::DoubleQuote);
    assert_eq!(df.dialect().parser_dialect, ParserDialect::Generic);
}

fn columns_of(fields: &[Field]) -> Vec<(String, DataType, bool)> {
    fields.iter().map(|f| (f.name.clone(), f.data_type, f.nullable)).collect()
}

#[test]
fn parse_sql_query_normalizes_text() {
    assert_eq!(
        parse_sql_query("select   a from values0", ParserDialect::Generic).unwrap(),
        "SELECT a FROM values0"
    );
}

#[test]
fn parse_sql_query_parse_error() {
    match parse_sql_query("select from from", ParserDialect::Generic) {
        Err(SqlError::Parse(m)) => assert!(m.starts_with("sql parser error: ")),
        other => panic!("unexpected result: {other:?}"),
    }
}

#[test]
fn parse_sql_query_tokenizer_error() {
    match parse_sql_query("select 'unterminated", ParserDialect::Generic) {
        Err(SqlError::Parse(m)) => assert!(m.starts_with("sql parser error: ")),
        other => panic!("unexpected result: {other:?}"),
    }
}

#[test]
fn parse_sql_query_empty_text() {
    match parse_sql_query("", ParserDialect::Generic) {
        Err(SqlError::Internal(m)) => assert_eq!(m, "Parser result empty"),
        other => panic!("unexpected result: {other:?}"),
    }
}

#[test]
fn parse_sql_query_not_a_query() {
    match parse_sql_query("INSERT INTO t VALUES (1)", ParserDialect::Generic) {
        Err(SqlError::Internal(m)) => assert_eq!(m, "Parser result was not a query"),
        other => panic!("unexpected result: {other:?}"),
    }
}

#[test]
fn select_union_values_are_parsed() {
    let mut d = generic_dialect();
    d.values_mode = ValuesMode::SelectUnion;
    let columns = vec![field("a", DataType::Int64, true)];
    let rows = vec![strings(&["1"]), strings(&["2"])];
    let df = SqlDataFrame::from_values("c", d, &columns, &rows).unwrap();
    assert_eq!(df.query_string(), "SELECT 1 AS \"a\" UNION ALL SELECT 2 AS \"a\"");
}

#[test]
fn values_text_is_kept_as_written() {
    let columns = vec![field("a", DataType::Int64, true)];
    let rows = vec![strings(&["1"])];
    let df = SqlDataFrame::from_values("c", generic_dialect(), &columns, &rows).unwrap();
    assert_eq!(df.query_string(), "SELECT * FROM (VALUES (1)) AS \"_values\" (\"a\")");
    let wide: Vec<Vec<String>> = (0..500).map(|i| vec![format!("-{i}")]).collect();
    let big = SqlDataFrame::from_values("c", generic_dialect(), &columns, &wide).unwrap();
    assert_eq!(big.query_count(), 1);
}

#[test]
fn filter_and_limit_keep_schema() {
    let df = abc_values();
    let f = df.filter("\"a\" > 1").unwrap().limit(1).unwrap();
    assert_eq!(cols(&f), columns_of(&abc_fields()));
}
