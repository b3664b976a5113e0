use sqlparser::dialect::GenericDialect;
use sqlparser::parser::Parser;
use vegafusion_sql::dialect::{Dialect, ParserDialect, QuoteStyle, ValuesMode};
use vegafusion_sql::exprs::{ColumnSpec, CompiledExpr};
use vegafusion_sql::frame::SqlDataFrame;
use vegafusion_sql::project::{unescape_field, Project};
use vegafusion_sql::schema::{DataType, Field};
use vegafusion_sql::stack::StackMode;

fn dialect(qualified: bool) -> Dialect {
    Dialect {
        quote_style: QuoteStyle::DoubleQuote,
        parser_dialect: ParserDialect::Generic,
        values_mode: ValuesMode::ValuesWithSubqueryColumnAliases { explicit_row: false },
        joinaggregate_fully_qualified: qualified,
        impute_fully_qualified: qualified,
        supports_null_ordering: true,
    }
}

fn normalized(sql: &str) -> String {
    Parser::parse_sql(&GenericDialect {}, sql).unwrap()[0].to_string()
}

fn strings(v: &[&str]) -> Vec<String> {
    v.iter().map(|s| s.to_string()).collect()
}

fn field(name: &str, data_type: DataType, nullable: bool) -> Field {
    Field { name: name.to_string(), data_type, nullable }
}

fn names(df: &SqlDataFrame) -> Vec<String> {
    df.schema().iter().map(|f| f.name.clone()).collect()
}

fn cols(df: &SqlDataFrame) -> Vec<(String, DataType, bool)> {
    df.schema().iter().map(|f| (f.name.clone(), f.data_type, f.nullable)).collect()
}

fn col_of(name: &str, data_type: DataType) -> (String, DataType, bool) {
    (name.to_string(), data_type, true)
}

fn values(d: Dialect) -> SqlDataFrame {
    let columns = vec![
        field("a", DataType::Int64, false),
        field("b", DataType::Int64, false),
        field("c", DataType::Utf8, false),
    ];
    let rows = vec![
        strings(&["1", "2", "'A'"]),
        strings(&["3", "2", "'BB'"]),
        strings(&["5", "3", "'CCC'"]),
    ];
    SqlDataFrame::from_values("datafusion", d, &columns, &rows).unwrap()
}

fn last_query(df: &SqlDataFrame) -> String {
    df.as_query().body
}

fn aliased(sql: &str, alias: &str) -> CompiledExpr {
    CompiledExpr {
        sql: sql.to_string(),
        item: format!("{sql} AS \"{alias}\""),
        output: ColumnSpec::Named(alias.to_string()),
        data_type: DataType::Int64,
    }
}

fn col(name: &str) -> CompiledExpr {
    CompiledExpr {
        sql: format!("\"{name}\""),
        item: format!("\"{name}\""),
        output: ColumnSpec::Named(name.to_string()),
        data_type: DataType::Int64,
    }
}

#[test]
fn joinaggregate_with_groups() {
    let df = values(dialect(false));
    let df2 = df
        .joinaggregate(&vec![col("b")], &vec![aliased("min(\"a\")", "min_a"), aliased("count(\"a\")", "count_a")])
        .unwrap();
    let expected = "select \"a\" AS \"a\", \"b\" AS \"b\", \"c\" AS \"c\", \"min_a\" AS \"min_a\", \"count_a\" AS \"count_a\" \
        from values0 LEFT OUTER JOIN (select min(\"a\") AS \"min_a\", count(\"a\") AS \"count_a\", \"b\" from values0 group by \"b\") \
        as values0_inner USING (\"b\")";
    assert_eq!(last_query(&df2), normalized(expected));
    assert_eq!(
        cols(&df2),
        vec![
            col_of("a", DataType::Int64),
            col_of("b", DataType::Int64),
            col_of("c", DataType::Utf8),
            col_of("min_a", DataType::Int64),
            col_of("count_a", DataType::Int64),
        ]
    );
}

#[test]
fn joinaggregate_without_groups_replaces_shadowed_column() {
    let df = values(dialect(true));
    let df2 = df.joinaggregate(&Vec::new(), &vec![aliased("sum(\"a\")", "a")]).unwrap();
    let expected = "select \"values0\".\"b\" AS \"b\", \"values0\".\"c\" AS \"c\", \"values0_inner\".\"a\" AS \"a\" \
        from values0 CROSS JOIN (select sum(\"a\") AS \"a\" from values0) as values0_inner";
    assert_eq!(last_query(&df2), normalized(expected));
    assert_eq!(names(&df2), strings(&["b", "c", "a"]));
}

#[test]
fn fold_without_order() {
    let df = values(dialect(false));
    let df2 = df.fold(&strings(&["a", "zz"]), "value", "key", &None).unwrap();
    let expected = "SELECT \"a\", \"b\", \"c\", \"key\", \"value\" FROM (\
        SELECT \"a\", \"b\", \"c\", 'a' AS \"key\", \"a\" AS \"value\" from values0 UNION ALL \
        SELECT \"a\", \"b\", \"c\", 'zz' AS \"key\", NULL AS \"value\" from values0) as _union";
    assert_eq!(last_query(&df2), normalized(expected));
    assert_eq!(
        cols(&df2),
        vec![
            col_of("a", DataType::Int64),
            col_of("b", DataType::Int64),
            col_of("c", DataType::Utf8),
            col_of("key", DataType::Utf8),
            col_of("value", DataType::Int64),
        ]
    );
    assert_eq!(df2.query_count(), 2);
}

#[test]
fn fold_with_order_numbers_rows() {
    let df = values(dialect(false));
    let df2 = df.fold(&strings(&["a", "c"]), "value", "c", &Some("b".to_string())).unwrap();
    assert_eq!(df2.query_count(), 3);
    let first = "SELECT \"a\", \"b\", \"c\", \"value\", \"b_field\" FROM (\
        SELECT \"a\", \"b\", 'a' AS \"c\", \"a\" AS \"value\", 0 AS \"b_field\" from values0 UNION ALL \
        SELECT \"a\", \"b\", 'c' AS \"c\", \"c\" AS \"value\", 1 AS \"b_field\" from values0) as _union";
    assert_eq!(df2.as_query().with[1].query, normalized(first));
    let second = "select row_number() OVER (ORDER BY \"b\" ASC NULLS FIRST, \"b_field\" ASC NULLS FIRST \
        ROWS BETWEEN UNBOUNDED PRECEDING AND CURRENT ROW) AS \"b\", \"b\", \"c\", \"value\" from values1";
    assert_eq!(last_query(&df2), normalized(second));
    assert_eq!(
        cols(&df2),
        vec![
            col_of("b", DataType::UInt64),
            col_of("b", DataType::Int64),
            col_of("c", DataType::Utf8),
            col_of("value", DataType::Int64),
        ]
    );
}

#[test]
fn fold_order_without_null_ordering() {
    let mut d = dialect(false);
    d.supports_null_ordering = false;
    let df = values(d);
    let df2 = df.fold(&strings(&["a"]), "value", "key", &Some("c".to_string())).unwrap();
    assert!(last_query(&df2).starts_with(
        "SELECT row_number() OVER (ORDER BY \"c\" ASC, \"c_field\" ASC ROWS BETWEEN UNBOUNDED PRECEDING AND CURRENT ROW) AS \"c\""
    ));
}

const WINDOW: &str = "OVER (PARTITION BY \"b\" ORDER BY \"c\" ASC ROWS BETWEEN UNBOUNDED PRECEDING AND CURRENT ROW)";

#[test]
fn stack_zero_mode() {
    let df = values(dialect(false));
    let df2 = df.stack("\"a\"", &strings(&["\"c\" ASC"]), &strings(&["b"]), "start", "stop", StackMode::Zero).unwrap();
    assert_eq!(df2.query_count(), 3);
    let window_item = format!("sum(coalesce(\"a\", 0.0)) {WINDOW} AS \"stop\"");
    let union = format!(
        "SELECT *, {window_item} from values0 WHERE coalesce(\"a\", 0.0) >= 0 UNION ALL \
         SELECT *, {window_item} from values0 WHERE coalesce(\"a\", 0.0) < 0"
    );
    assert_eq!(df2.as_query().with[1].query, normalized(&union));
    let last = "select \"a\", \"b\", \"c\", \"stop\" - coalesce(\"a\", 0.0) AS \"start\", \"stop\" from values1";
    assert_eq!(last_query(&df2), normalized(last));
    assert_eq!(
        cols(&df2),
        vec![
            col_of("a", DataType::Int64),
            col_of("b", DataType::Int64),
            col_of("c", DataType::Utf8),
            col_of("start", DataType::Float64),
            col_of("stop", DataType::Float64),
        ]
    );
}

#[test]
fn stack_normalize_mode() {
    let df = values(dialect(false));
    let df2 = df.stack("\"a\"", &strings(&["\"c\" ASC"]), &strings(&["b"]), "start", "stop", StackMode::Normalize).unwrap();
    assert_eq!(df2.query_count(), 5);
    let q = df2.as_query();
    assert_eq!(q.with[1].query, normalized("select *, abs(coalesce(\"a\", 0.0)) AS \"__stack\" from values0"));
    assert_eq!(
        q.with[2].query,
        normalized("SELECT * FROM values1 INNER JOIN (SELECT \"b\", sum(\"__stack\") AS \"__total\" from values1 GROUP BY \"b\") as __inner USING (\"b\")")
    );
    assert_eq!(
        q.with[3].query,
        normalized(&format!("select *, sum(\"__stack\") {WINDOW} AS \"_cumulative\" from values2"))
    );
    assert_eq!(
        q.body,
        normalized("select \"a\", \"b\", \"c\", \
            CASE WHEN \"__total\" = 0.0 THEN 0.0 ELSE (\"_cumulative\" - \"__stack\") / \"__total\" END AS \"start\", \
            CASE WHEN \"__total\" = 0.0 THEN 0.0 ELSE \"_cumulative\" / \"__total\" END AS \"stop\" from values3")
    );
    assert_eq!(
        cols(&df2),
        vec![
            col_of("a", DataType::Int64),
            col_of("b", DataType::Int64),
            col_of("c", DataType::Utf8),
            col_of("start", DataType::Float64),
            col_of("stop", DataType::Float64),
        ]
    );
}

#[test]
fn stack_center_mode_without_groups() {
    let df = values(dialect(false));
    let df2 = df.stack("\"a\"", &Vec::new(), &Vec::new(), "start", "stop", StackMode::Center).unwrap();
    assert_eq!(df2.query_count(), 6);
    let q = df2.as_query();
    assert_eq!(
        q.with[2].query,
        normalized("SELECT * from values1 CROSS JOIN (SELECT sum(\"__stack\") AS \"__total\" from values1)")
    );
    assert_eq!(
        q.with[3].query,
        normalized("select *, sum(\"__stack\") OVER (ROWS BETWEEN UNBOUNDED PRECEDING AND CURRENT ROW) AS \"_cumulative\" from values2")
    );
    assert_eq!(
        q.with[4].query,
        normalized("SELECT * from values3 CROSS JOIN (SELECT max(\"__total\") AS \"__max_total\" from values3) as _cross")
    );
    let stop = "(\"_cumulative\" + ((\"__max_total\" - \"__total\") / 2.0))";
    assert_eq!(
        q.body,
        normalized(&format!("select \"a\", \"b\", \"c\", ({stop} - \"__stack\") AS \"start\", {stop} AS \"stop\" from values4"))
    );
}

#[test]
fn impute_without_groups_fills_field() {
    let df = values(dialect(false));
    let df2 = df.impute("a", "0", DataType::Int64, "b", &Vec::new(), None).unwrap();
    assert_eq!(
        last_query(&df2),
        normalized("select coalesce(\"a\", 0) AS \"a\", \"b\", \"c\" from values0")
    );
    assert_eq!(
        cols(&df2),
        vec![col_of("a", DataType::Int64), col_of("b", DataType::Int64), col_of("c", DataType::Utf8)]
    );
}

#[test]
fn impute_with_groups() {
    let df = values(dialect(true));
    let df2 = df.impute("a", "0", DataType::Int64, "b", &strings(&["c"]), None).unwrap();
    let expected = "SELECT coalesce(\"a\", 0) AS \"a\", \"_key\".\"b\" AS \"b\", \"_groups\".\"c\" AS \"c\"  FROM \
        (SELECT \"b\" from values0 WHERE \"b\" IS NOT NULL GROUP BY \"b\") AS _key \
        CROSS JOIN (SELECT \"c\" from values0 GROUP BY \"c\") as _groups \
        LEFT OUTER JOIN values0 USING (\"b\", \"c\")";
    assert_eq!(last_query(&df2), normalized(expected));
    assert_eq!(
        cols(&df2),
        vec![col_of("a", DataType::Int64), col_of("b", DataType::Int64), col_of("c", DataType::Utf8)]
    );
}

fn ordered_values(d: Dialect) -> SqlDataFrame {
    let columns = vec![
        field("_vf_order", DataType::Int32, false),
        field("a", DataType::Int64, true),
        field("b", DataType::Int64, true),
        field("c", DataType::Utf8, true),
    ];
    let rows = vec![strings(&["0", "1", "2", "'A'"]), strings(&["1", "3", "2", "'BB'"])];
    SqlDataFrame::from_values("datafusion", d, &columns, &rows).unwrap()
}

#[test]
fn impute_with_groups_and_order() {
    let df = ordered_values(dialect(false));
    let df2 = df.impute("a", "0", DataType::Int64, "b", &strings(&["c"]), Some("_vf_order")).unwrap();
    assert_eq!(df2.query_count(), 3);
    let grouped = "SELECT \"_vf_order\", coalesce(\"a\", 0) AS \"a\", \"b\", \"c\", \"_vf_order_key\", \"_vf_order_groups\" FROM \
        (SELECT \"b\", min(\"_vf_order\") as \"_vf_order_key\" from values0 WHERE \"b\" IS NOT NULL GROUP BY \"b\") AS _key \
        CROSS JOIN (SELECT \"c\", min(\"_vf_order\") as \"_vf_order_groups\" from values0 GROUP BY \"c\") as _groups \
        LEFT OUTER JOIN values0 USING (\"b\", \"c\")";
    assert_eq!(df2.as_query().with[1].query, normalized(grouped));
    assert_eq!(
        last_query(&df2),
        normalized("select row_number() OVER (ORDER BY \"_vf_order\" ASC NULLS LAST, \"_vf_order_groups\" ASC NULLS FIRST, \
            \"_vf_order_key\" ASC NULLS FIRST ROWS BETWEEN UNBOUNDED PRECEDING AND CURRENT ROW) AS \"_vf_order\", \"a\", \"b\", \"c\" from values1")
    );
    assert_eq!(
        cols(&df2),
        vec![
            col_of("_vf_order", DataType::UInt64),
            col_of("a", DataType::Int64),
            col_of("b", DataType::Int64),
            col_of("c", DataType::Utf8),
        ]
    );
}

#[test]
fn impute_order_without_null_ordering() {
    let mut d = dialect(false);
    d.supports_null_ordering = false;
    let df = ordered_values(d);
    let df2 = df.impute("a", "0", DataType::Int64, "b", &strings(&["c"]), Some("_vf_order")).unwrap();
    assert_eq!(
        last_query(&df2),
        normalized("select row_number() OVER (ORDER BY \"_vf_order\" IS NULL ASC, \"_vf_order\" ASC, \"_vf_order_groups\" ASC, \
            \"_vf_order_key\" ASC ROWS BETWEEN UNBOUNDED PRECEDING AND CURRENT ROW) AS \"_vf_order\", \"a\", \"b\", \"c\" from values1")
    );
}

#[test]
fn project_keeps_present_fields_in_order() {
    let df = values(dialect(false));
    let project = Project { fields: strings(&["c", "missing", "a"]) };
    let df2 = project.eval(&df).unwrap();
    assert_eq!(last_query(&df2), "SELECT \"c\", \"a\" FROM values0");
    assert_eq!(cols(&df2), vec![col_of("c", DataType::Utf8), col_of("a", DataType::Int64)]);
}

#[test]
fn project_unescapes_field_names() {
    let columns = vec![field("a.b", DataType::Int64, false), field("c", DataType::Int64, false)];
    let rows = vec![strings(&["1", "2"])];
    let df = SqlDataFrame::from_values("datafusion", dialect(false), &columns, &rows).unwrap();
    let project = Project { fields: strings(&["a\\.b"]) };
    let df2 = project.eval(&df).unwrap();
    assert_eq!(last_query(&df2), "SELECT \"a.b\" FROM values0");
    assert_eq!(cols(&df2), vec![col_of("a.b", DataType::Int64)]);
}

#[test]
fn unescape_field_drops_escaping_backslashes() {
    assert_eq!(unescape_field("a\\.b\\[0\\]"), "a.b[0]");
    assert_eq!(unescape_field("plain"), "plain");
    assert_eq!(unescape_field("back\\slash"), "back\\slash");
    assert_eq!(unescape_field("end\\"), "end\\");
}

#[test]
fn project_onto_present_columns_keeps_them_all() {
    let df = values(dialect(false));
    let project = Project { fields: strings(&["b", "a", "c"]) };
    let df2 = project.eval(&df).unwrap();
    assert_eq!(names(&df2), strings(&["b", "a", "c"]));
    assert_eq!(last_query(&df2), "SELECT \"b\", \"a\", \"c\" FROM values0");
}

#[test]
fn project_onto_no_present_column_selects_nothing() {
    let df = values(dialect(false));
    let project = Project { fields: strings(&["zz"]) };
    let direct = Parser::parse_sql(&GenericDialect {}, "select  from values0");
    match (project.eval(&df), direct) {
        (Ok(df2), Ok(statements)) => {
            assert_eq!(last_query(&df2), statements[0].to_string());
            assert!(names(&df2).is_empty());
        }
        (Err(vegafusion_sql::parse::SqlError::Parse(m)), Err(e)) => assert_eq!(m, e.to_string()),
        _ => panic!("the library and the parser disagree"),
    }
}

#[test]
fn long_inputs_the_parser_handles_are_accepted() {
    let df = values(dialect(false));
    let clauses: Vec<String> = (0..24).map(|i| format!("\"a\" = {i}")).collect();
    assert!(df.filter(&clauses.join(" OR ")).is_ok());
    let fields: Vec<String> = (0..502).map(|i| format!("f{i}")).collect();
    let folded = df.fold(&fields, "value", "key", &None).unwrap();
    assert_eq!(folded.query_count(), 2);
    let mut d = dialect(false);
    d.values_mode = ValuesMode::SelectUnion;
    let rows: Vec<Vec<String>> = (0..17).map(|i| vec![format!("{i}")]).collect();
    let one = SqlDataFrame::from_values("c", d, &vec![field("v", DataType::Int64, true)], &rows).unwrap();
    assert_eq!(one.query_count(), 1);
}
