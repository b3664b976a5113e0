use vegafusion_sql::dialect::ParserDialect;
use vegafusion_sql::parse::{parse_sql_query, SqlError};

fn refused(sql: &str) -> bool {
    matches!(parse_sql_query(sql, ParserDialect::Generic), Err(SqlError::Internal(m)) if m == "SQL text nests too deeply to parse")
}

fn ors(n: usize) -> String {
    let u: Vec<String> = (0..n).map(|i| format!("a = {i}")).collect();
    format!("SELECT * FROM t WHERE {}", u.join(" OR "))
}

#[test]
fn deeply_nested_table_references_are_refused() {
    let sql = format!("select * from {}t{}", "(".repeat(100_000), ")".repeat(100_000));
    assert!(refused(&sql));
}

#[test]
fn long_operator_chains_are_refused() {
    assert!(refused(&format!("SELECT {}1", "- ".repeat(5_000))));
    assert!(refused(&format!("SELECT {}1", "NOT ".repeat(5_000))));
    assert!(refused(&format!("SELECT a{}", " * - b".repeat(1_000))));
    assert!(refused(&ors(250)));
}

#[test]
fn ordinary_predicates_are_parsed() {
    assert_eq!(parse_sql_query(&ors(24), ParserDialect::Generic).unwrap(), ors(24));
    assert!(parse_sql_query(&ors(38), ParserDialect::Generic).is_ok());
    let whens: Vec<String> = (0..30).map(|i| format!("WHEN a THEN {i}")).collect();
    let case = format!("SELECT CASE {} ELSE 0 END AS \"x\" FROM t", whens.join(" "));
    assert!(parse_sql_query(&case, ParserDialect::Generic).is_ok());
    let items: Vec<String> = (0..2_000).map(|i| format!("- {i}")).collect();
    assert!(parse_sql_query(&format!("SELECT {}", items.join(", ")), ParserDialect::Generic).is_ok());
}

#[test]
fn set_operators_are_bounded() {
    let unions = |n: usize| -> String {
        let u: Vec<String> = (0..n).map(|i| format!("SELECT {i} AS \"a\"")).collect();
        u.join(" UNION ALL ")
    };
    assert!(parse_sql_query(&unions(1_001), ParserDialect::Generic).is_ok());
    assert!(refused(&unions(1_002)));
    assert!(refused(&unions(10_000)));
}

#[test]
fn texts_at_the_limit_are_parsed_without_running_out_of_stack() {
    let texts = vec![
        format!("SELECT 1 FROM {}SELECT 1{}", "(SELECT 1 FROM ".repeat(15), ") AS x".repeat(15)),
        format!("SELECT {}1{}", "f(".repeat(19), ")".repeat(19)),
        format!("SELECT {}1{}", "(".repeat(19), ")".repeat(19)),
        format!("SELECT * FROM {}t{}", "(".repeat(19), ")".repeat(19)),
        format!("SELECT {}1", "- ".repeat(79)),
        format!("SELECT {}1", "NOT ".repeat(79)),
        format!("SELECT {}1", "NOT a = ".repeat(39)),
        format!("SELECT a{}", " * - b".repeat(39)),
        format!("SELECT a{}", " || b".repeat(79)),
        format!("SELECT {}x", "- ~ ".repeat(39)),
        format!("SELECT CAST(x AS {}INT{})", "ARRAY<".repeat(25), ">".repeat(25)),
        format!("SELECT {}1{}", "CASE WHEN ".repeat(39), " THEN 1 END".repeat(39)),
        ors(39),
        format!("SELECT 1 FROM {}SELECT {}1{}", "(SELECT 1 FROM ".repeat(8), "- ".repeat(38), ") AS x".repeat(8)),
        format!("SELECT * FROM {}(SELECT 1) AS s{}", "(t JOIN ".repeat(10), " ON TRUE)".repeat(10)),
    ];
    for sql in texts {
        assert!(!refused(&sql), "refused: {sql}");
        let _ = parse_sql_query(&sql, ParserDialect::Generic);
        let _ = parse_sql_query(&sql, ParserDialect::MySql);
        let _ = parse_sql_query(&sql, ParserDialect::PostgreSql);
    }
}
