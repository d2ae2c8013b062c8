use crm::schemas::{Column, Constraint, DataType, TableChangeEvents, TableIn};
use crm::sql::{alter_table_queries, create_table_query, delete_table_query, join_strings};
use crm::test_utils::default_table_in;

fn s(x: &str) -> String {
    String::from(x)
}

#[test]
fn create_table_query_of_default_table() {
    assert_eq!(
        create_table_query(&default_table_in()),
        "CREATE TABLE \"users\" (\"id\" INTEGER, \"name\" TEXT, PRIMARY KEY (\"id\"))"
    );
}

#[test]
fn create_table_query_with_foreign_key_and_no_key() {
    let t = TableIn {
        table_name: s("orders"),
        columns: vec![Column {
            name: s("user_id"),
            datatype: DataType::INTEGER,
            constraints: vec![Constraint::ForeignKey(s("users"), s("id"))],
        }],
    };
    assert_eq!(
        create_table_query(&t),
        "CREATE TABLE \"orders\" (\"user_id\" INTEGER REFERENCES \"users\"(\"id\"))"
    );
}

#[test]
fn create_table_query_with_two_keys() {
    let t = TableIn {
        table_name: s("pairs"),
        columns: vec![
            Column { name: s("a"), datatype: DataType::TEXT, constraints: vec![Constraint::PrimaryKey] },
            Column { name: s("b"), datatype: DataType::BOOLEAN, constraints: vec![Constraint::PrimaryKey] },
        ],
    };
    assert_eq!(
        create_table_query(&t),
        "CREATE TABLE \"pairs\" (\"a\" TEXT, \"b\" BOOLEAN, PRIMARY KEY (\"a\", \"b\"))"
    );
}

#[test]
fn delete_table_query_names_table() {
    assert_eq!(delete_table_query("users"), "DROP TABLE users");
}

#[test]
fn join_strings_separates() {
    assert_eq!(join_strings(&vec![s("a"), s("b"), s("c")], ", "), "a, b, c");
    assert_eq!(join_strings(&vec![], ", "), "");
}

#[test]
fn alter_table_queries_follow_renames() {
    let events = vec![
        TableChangeEvents::ChangeColumnName(s("name"), s("title")),
        TableChangeEvents::ChangeTableName(s("people")),
        TableChangeEvents::RemoveForeignKey(s("owner")),
    ];
    assert_eq!(
        alter_table_queries("users", &events),
        vec![
            s("ALTER TABLE \"users\" RENAME COLUMN \"name\" TO \"title\""),
            s("ALTER TABLE \"users\" RENAME TO \"people\""),
            s("ALTER TABLE \"people\" DROP CONSTRAINT IF EXISTS \"people_owner_fkey\""),
        ]
    );
}

#[test]
fn alter_table_queries_give_each_key_change_its_statement() {
    let events = vec![
        TableChangeEvents::ChangeColumnName(s("id"), s("key")),
        TableChangeEvents::AddPrimaryKey(s("code")),
        TableChangeEvents::ChangeTableName(s("items")),
        TableChangeEvents::RemovePrimaryKey(s("key")),
    ];
    assert_eq!(
        alter_table_queries("t", &events),
        vec![
            s("ALTER TABLE \"t\" RENAME COLUMN \"id\" TO \"key\""),
            s("ALTER TABLE \"t\" ADD PRIMARY KEY (\"code\")"),
            s("ALTER TABLE \"t\" RENAME TO \"items\""),
            s("ALTER TABLE \"items\" DROP CONSTRAINT IF EXISTS \"items_pkey\""),
        ]
    );
    assert_eq!(alter_table_queries("t", &vec![]), Vec::<String>::new());
}
