use vegafusion_sql::dialect::{quote_ident, QuoteStyle};
use vegafusion_sql::functions::{insert_function, make_datafusion_dialect};
use vegafusion_sql::task::{SubTask, Task, TaskCall, TaskKind, TaskStep, TaskValue};
use vegafusion_sql::text::{append_decimal, append_signed_decimal, append_string_literal, join_strings};
use vegafusion_sql::time::{date32_to_millis, time_column, TimeColumn};

fn strings(v: &[&str]) -> Vec<String> {
    v.iter().map(|s| s.to_string()).collect()
}

#[test]
fn decimals() {
    let mut s = String::from("x");
    append_decimal(&mut s, 0);
    append_decimal(&mut s, 1234567890);
    assert_eq!(s, "x01234567890");
    let mut t = String::new();
    append_signed_decimal(&mut t, -42);
    append_signed_decimal(&mut t, i64::MIN);
    assert_eq!(t, "-42-9223372036854775808");
    let mut u = String::new();
    append_decimal(&mut u, u64::MAX);
    assert_eq!(u, "18446744073709551615");
}

#[test]
fn join_puts_separator_between_items() {
    assert_eq!(join_strings(&strings(&["a", "b", "c"]), ", "), "a, b, c");
    assert_eq!(join_strings(&strings(&["only"]), ", "), "only");
    assert_eq!(join_strings(&Vec::new(), ", "), "");
}

#[test]
fn string_literals_double_single_quotes() {
    let mut s = String::new();
    append_string_literal(&mut s, "it's");
    assert_eq!(s, "'it''s'");
}

#[test]
fn identifiers_quoted_per_style() {
    assert_eq!(quote_ident("a\"b", QuoteStyle::DoubleQuote), "\"a\"\"b\"");
    assert_eq!(quote_ident("a`b", QuoteStyle::Backtick), "`a``b`");
    assert_eq!(quote_ident("col", QuoteStyle::SingleQuote), "'col'");
    assert_eq!(quote_ident("col x", QuoteStyle::Bracket), "[col x]");
}

#[test]
fn time_of_dates_and_timestamps() {
    assert_eq!(date32_to_millis(1), 86_400_000);
    assert_eq!(date32_to_millis(-1), -86_400_000);
    assert_eq!(date32_to_millis(i32::MAX), 2_147_483_647_i64 * 86_400_000);
    assert_eq!(
        time_column(&TimeColumn::Date32(vec![Some(0), None, Some(19000)])),
        vec![Some(0), None, Some(1_641_600_000_000)]
    );
    assert_eq!(
        time_column(&TimeColumn::TimestampMillis(vec![Some(1_600_000_000_123), None])),
        vec![Some(1_600_000_000_123), None]
    );
    assert_eq!(time_column(&TimeColumn::Date64(vec![Some(-5)])), vec![Some(-5)]);
    assert_eq!(time_column(&TimeColumn::Int64(vec![])), vec![]);
}

#[test]
fn value_task_is_done() {
    let task = Task { task_kind: TaskKind::Value(TaskValue::Scalar(vec![1, 2, 3])) };
    match task.eval(&[TaskValue::Table(vec![9])]) {
        TaskStep::Done(TaskValue::Scalar(bytes), others) => {
            assert_eq!(bytes, vec![1, 2, 3]);
            assert!(others.is_empty());
        }
        _ => panic!("a value task is done at once"),
    }
}

#[test]
fn computed_task_delegates_inputs() {
    let task = Task { task_kind: TaskKind::Computed(SubTask::DataUrl) };
    match task.eval(&[TaskValue::Table(vec![9, 8]), TaskValue::Scalar(vec![])]) {
        TaskStep::Delegate(sub, inputs) => {
            assert_eq!(sub, SubTask::DataUrl);
            assert_eq!(inputs.len(), 2);
            assert!(matches!(&inputs[0], TaskValue::Table(b) if b == &vec![9, 8]));
            assert!(matches!(&inputs[1], TaskValue::Scalar(b) if b.is_empty()));
        }
        _ => panic!("a computed task delegates"),
    }
    let signal = Task { task_kind: TaskKind::Computed(SubTask::Signal) };
    assert!(matches!(signal.eval(&[]), TaskStep::Delegate(SubTask::Signal, v) if v.is_empty()));
}

#[test]
fn datafusion_dialect_adds_missing_functions_once() {
    let base = strings(&["abs", "pow", "year"]);
    let functions = make_datafusion_dialect(base);
    assert_eq!(&functions[..3], &strings(&["abs", "pow", "year"])[..]);
    assert_eq!(functions.len(), 3 + 17);
    assert!(functions.contains(&"vg_timeformat".to_string()));
    assert!(functions.contains(&"isnan".to_string()));
    assert_eq!(functions.iter().filter(|f| f.as_str() == "pow").count(), 1);
    let fresh = make_datafusion_dialect(Vec::new());
    assert_eq!(fresh.len(), 19);
    assert_eq!(fresh[0], "isnan");
    assert_eq!(fresh[18], "pow");
}

#[test]
fn insert_function_is_idempotent() {
    let mut f = strings(&["a"]);
    insert_function(&mut f, "b");
    insert_function(&mut f, "b");
    insert_function(&mut f, "a");
    assert_eq!(f, strings(&["a", "b"]));
}
