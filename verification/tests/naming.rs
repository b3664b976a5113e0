use vegafusion_sql::naming::{cte_name_for_index, parent_cte_name_for_index};

#[test]
fn it_works() {
    assert_eq!(2 + 2, 4);
}

#[test]
fn cte_name_appends_index_to_prefix() {
    assert_eq!(cte_name_for_index("values", 0), "values0");
    assert_eq!(cte_name_for_index("tbl", 12), "tbl12");
}

#[test]
fn parent_name_is_previous_index() {
    assert_eq!(parent_cte_name_for_index("values", 1), "values0");
    assert_eq!(parent_cte_name_for_index("t", 10), "t9");
}
