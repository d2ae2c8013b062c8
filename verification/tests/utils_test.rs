use crm::filter::{filter_tables, get_table_filter_regex, table_matches_filter};
use crm::schemas::{Column, Constraint, DataType, TableGeneralInfo};
use crm::test_utils::{
    create_btable_general, default_table_in, sort_by_table_name, sort_columns,
    sort_tables_general_info,
};

fn s(x: &str) -> String {
    String::from(x)
}

fn info(name: &str) -> TableGeneralInfo {
    TableGeneralInfo { table_name: s(name), column_names: vec![], data_types: vec![] }
}

fn names(tables: &[TableGeneralInfo]) -> Vec<String> {
    tables.iter().map(|t| t.table_name.clone()).collect()
}

#[test]
fn default_table_is_users() {
    let t = default_table_in();
    assert_eq!(t.table_name, "users");
    assert_eq!(
        t.columns,
        vec![
            Column { name: s("id"), datatype: DataType::INTEGER, constraints: vec![Constraint::PrimaryKey] },
            Column { name: s("name"), datatype: DataType::TEXT, constraints: vec![] },
        ]
    );
}

#[test]
fn general_info_lists_names_and_types() {
    let g = create_btable_general(&default_table_in());
    assert_eq!(
        g,
        TableGeneralInfo {
            table_name: s("users"),
            column_names: vec![s("id"), s("name")],
            data_types: vec![DataType::INTEGER, DataType::TEXT],
        }
    );
}

#[test]
fn tables_sort_by_name() {
    let mut tables = vec![info("users"), info("accounts"), info("orders"), info("account")];
    sort_by_table_name(&mut tables);
    assert_eq!(names(&tables), vec![s("account"), s("accounts"), s("orders"), s("users")]);
    let mut again = vec![info("b"), info("a"), info("b")];
    sort_tables_general_info(&mut again);
    assert_eq!(names(&again), vec![s("a"), s("b"), s("b")]);
    let mut empty: Vec<TableGeneralInfo> = vec![];
    sort_tables_general_info(&mut empty);
    assert!(empty.is_empty());
}

#[test]
fn columns_sort_by_name() {
    let mut columns = vec![
        Column { name: s("name"), datatype: DataType::TEXT, constraints: vec![] },
        Column { name: s("id"), datatype: DataType::INTEGER, constraints: vec![Constraint::PrimaryKey] },
        Column { name: s("Zeta"), datatype: DataType::BOOLEAN, constraints: vec![] },
    ];
    sort_columns(&mut columns);
    let order: Vec<String> = columns.iter().map(|c| c.name.clone()).collect();
    assert_eq!(order, vec![s("Zeta"), s("id"), s("name")]);
    assert_eq!(columns[1].datatype, DataType::INTEGER);
}

#[test]
fn filter_pattern_ignores_case() {
    assert_eq!(get_table_filter_regex("us"), "(?i)us");
    assert_eq!(get_table_filter_regex(""), "(?i)");
}

#[test]
fn filter_matches_as_a_regex() {
    assert!(table_matches_filter("US", "users"));
    assert!(table_matches_filter("", "users"));
    assert!(table_matches_filter("^u.*s$", "users"));
    assert!(!table_matches_filter("^s", "users"));
    assert!(!table_matches_filter("orders", "users"));
    // A filter that is no valid expression lists the table.
    assert!(table_matches_filter("(", "users"));
    assert!(table_matches_filter("[a-", "users"));
}

#[test]
fn filter_tables_keeps_order() {
    let tables = vec![info("users"), info("orders"), info("user_roles")];
    assert_eq!(filter_tables(&tables, "user"), vec![s("users"), s("user_roles")]);
    assert_eq!(filter_tables(&tables, "zzz"), Vec::<String>::new());
    assert_eq!(filter_tables(&tables, ""), vec![s("users"), s("orders"), s("user_roles")]);
}

#[test]
fn sorting_keeps_equal_names_in_order() {
    let mut columns = vec![
        Column { name: s("b"), datatype: DataType::TEXT, constraints: vec![] },
        Column { name: s("a"), datatype: DataType::INTEGER, constraints: vec![] },
        Column { name: s("b"), datatype: DataType::BOOLEAN, constraints: vec![] },
        Column { name: s("a"), datatype: DataType::TIMESTAMP, constraints: vec![] },
    ];
    sort_columns(&mut columns);
    let order: Vec<(String, DataType)> = columns.iter().map(|c| (c.name.clone(), c.datatype)).collect();
    assert_eq!(
        order,
        vec![
            (s("a"), DataType::INTEGER),
            (s("a"), DataType::TIMESTAMP),
            (s("b"), DataType::TEXT),
            (s("b"), DataType::BOOLEAN),
        ]
    );
}
