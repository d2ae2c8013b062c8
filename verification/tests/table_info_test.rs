use crm::components::{Console, RepositoryConsole};
use crm::schemas::{
    Column, ColumnForeignKey, ColumnsInfo, Constraint, DataType, TableChangeEvents,
};
use crm::table_info::TableInfo;

fn s(x: &str) -> String {
    String::from(x)
}

fn users_table() -> TableInfo {
    let mut t = TableInfo::new();
    let mut console = Console::new(RepositoryConsole::new());
    t.set_table_info(
        s("users"),
        vec![
            ColumnsInfo {
                column_name: s("id"),
                data_type: s("integer"),
                constraint_types: vec![s("PRIMARY KEY")],
                referenced_tables: vec![None],
                referenced_columns: vec![None],
            },
            ColumnsInfo {
                column_name: s("name"),
                data_type: s("text"),
                constraint_types: vec![],
                referenced_tables: vec![],
                referenced_columns: vec![],
            },
        ],
        &mut console,
    );
    t
}

#[test]
fn set_table_info_reads_columns() {
    let t = users_table();
    assert_eq!(t.table_name, Some(s("users")));
    assert_eq!(
        t.columns_info,
        vec![
            Column { name: s("id"), datatype: DataType::INTEGER, constraints: vec![Constraint::PrimaryKey] },
            Column { name: s("name"), datatype: DataType::TEXT, constraints: vec![] },
        ]
    );
    assert!(t.get_table_change_events().is_empty());
    assert_eq!(t.primary_key_column_names(), vec![s("id")]);
}

#[test]
fn alter_table_events_merge_into_final_schema() {
    let mut t = users_table();
    let fk = s("registrations_id");
    let events = vec![
        TableChangeEvents::AddColumn(s("email"), DataType::TEXT),
        TableChangeEvents::ChangeColumnName(s("name"), s("username")),
        TableChangeEvents::ChangeColumnDataType(s("username"), DataType::INTEGER),
        TableChangeEvents::AddColumn(s("age"), DataType::INTEGER),
        TableChangeEvents::RemoveColumn(s("age")),
        TableChangeEvents::RemoveColumn(s("id")),
        TableChangeEvents::ChangeTableName(s("customers")),
        TableChangeEvents::AddColumn(s("created_at"), DataType::TIMESTAMP),
        TableChangeEvents::ChangeColumnName(s("created_at"), s("registration_date")),
        TableChangeEvents::RemoveColumn(s("registration_date")),
        TableChangeEvents::AddColumn(s("is_active"), DataType::BOOLEAN),
        TableChangeEvents::ChangeColumnName(s("is_active"), s("active_status")),
        TableChangeEvents::AddColumn(s("last_login"), DataType::TIMESTAMP),
        TableChangeEvents::ChangeColumnDataType(s("last_login"), DataType::TIMESTAMP),
        TableChangeEvents::AddColumn(s("country"), DataType::TEXT),
        TableChangeEvents::AddPrimaryKey(s("country")),
        TableChangeEvents::ChangeColumnName(s("country"), s("region")),
        TableChangeEvents::ChangeTableName(s("clients")),
        TableChangeEvents::AddColumn(s("phone_number"), DataType::TEXT),
        TableChangeEvents::AddPrimaryKey(s("phone_number")),
        TableChangeEvents::RemoveColumn(s("phone_number")),
        TableChangeEvents::ChangeColumnName(s("username"), s("name")),
        TableChangeEvents::AddColumn(fk.clone(), DataType::INTEGER),
        TableChangeEvents::AddForeignKey(ColumnForeignKey {
            column_name: fk.clone(),
            referenced_table: s("registrations"),
            referenced_column: s("id"),
        }),
        TableChangeEvents::RemoveForeignKey(fk.clone()),
        TableChangeEvents::AddForeignKey(ColumnForeignKey {
            column_name: fk.clone(),
            referenced_table: s("registrations"),
            referenced_column: s("id"),
        }),
    ];
    for e in events {
        t.add_table_change_event(e);
    }
    let expected = vec![
        TableChangeEvents::AddColumn(s("email"), DataType::TEXT),
        TableChangeEvents::RemoveColumn(s("id")),
        TableChangeEvents::AddColumn(s("active_status"), DataType::BOOLEAN),
        TableChangeEvents::AddColumn(s("last_login"), DataType::TIMESTAMP),
        TableChangeEvents::AddColumn(s("region"), DataType::TEXT),
        TableChangeEvents::AddPrimaryKey(s("region")),
        TableChangeEvents::ChangeTableName(s("clients")),
        TableChangeEvents::ChangeColumnDataType(s("name"), DataType::INTEGER),
        TableChangeEvents::AddColumn(fk.clone(), DataType::INTEGER),
        TableChangeEvents::AddForeignKey(ColumnForeignKey {
            column_name: fk.clone(),
            referenced_table: s("registrations"),
            referenced_column: s("id"),
        }),
    ];
    assert_eq!(t.get_table_change_events(), expected);
    assert!(t.at_least_one_primary_key());

    let queries = t.update_table();
    assert_eq!(
        queries,
        vec![
            s("ALTER TABLE \"users\" ADD COLUMN \"email\" TEXT"),
            s("ALTER TABLE \"users\" DROP COLUMN \"id\""),
            s("ALTER TABLE \"users\" ADD COLUMN \"active_status\" BOOLEAN"),
            s("ALTER TABLE \"users\" ADD COLUMN \"last_login\" TIMESTAMP"),
            s("ALTER TABLE \"users\" ADD COLUMN \"region\" TEXT"),
            s("ALTER TABLE \"users\" ADD PRIMARY KEY (\"region\")"),
            s("ALTER TABLE \"users\" RENAME TO \"clients\""),
            s("ALTER TABLE \"clients\" ALTER COLUMN \"name\" TYPE INTEGER USING \"name\"::INTEGER"),
            s("ALTER TABLE \"clients\" ADD COLUMN \"registrations_id\" INTEGER"),
            s("ALTER TABLE \"clients\" ADD FOREIGN KEY (\"registrations_id\") REFERENCES \"registrations\"(\"id\")"),
        ]
    );
    assert_eq!(t.table_name, Some(s("clients")));
    assert!(t.get_table_change_events().is_empty());
}

#[test]
fn removing_every_primary_key_keeps_id_as_key() {
    let mut t = users_table();
    t.add_table_change_event(TableChangeEvents::RemoveColumn(s("id")));
    assert!(!t.at_least_one_primary_key());
    let queries = t.update_table();
    assert_eq!(
        queries,
        vec![s("ALTER TABLE \"users\" ADD PRIMARY KEY (\"id\")")]
    );
    assert_eq!(t.table_name, Some(s("users")));
}

#[test]
fn add_then_remove_primary_key_cancels() {
    let mut t = users_table();
    t.add_table_change_event(TableChangeEvents::AddPrimaryKey(s("name")));
    t.add_table_change_event(TableChangeEvents::RemovePrimaryKey(s("name")));
    assert!(t.get_table_change_events().is_empty());
}

#[test]
fn remove_then_add_primary_key_cancels() {
    let mut t = users_table();
    t.add_table_change_event(TableChangeEvents::RemovePrimaryKey(s("id")));
    t.add_table_change_event(TableChangeEvents::AddPrimaryKey(s("id")));
    assert!(t.get_table_change_events().is_empty());
}

#[test]
fn add_then_remove_foreign_key_cancels() {
    let mut t = users_table();
    let fk = ColumnForeignKey { column_name: s("name"), referenced_table: s("accounts"), referenced_column: s("id") };
    t.add_table_change_event(TableChangeEvents::AddForeignKey(fk));
    t.add_table_change_event(TableChangeEvents::RemoveForeignKey(s("name")));
    assert!(t.get_table_change_events().is_empty());
}

#[test]
fn add_then_remove_column_cancels() {
    let mut t = users_table();
    t.add_table_change_event(TableChangeEvents::AddColumn(s("age"), DataType::INTEGER));
    t.add_table_change_event(TableChangeEvents::RemoveColumn(s("age")));
    assert!(t.get_table_change_events().is_empty());
}

#[test]
fn rename_table_and_back_cancels() {
    let mut t = users_table();
    t.add_table_change_event(TableChangeEvents::ChangeTableName(s("accounts")));
    t.add_table_change_event(TableChangeEvents::ChangeTableName(s("users")));
    assert!(t.get_table_change_events().is_empty());
}

#[test]
fn second_table_rename_replaces_first() {
    let mut t = users_table();
    t.add_table_change_event(TableChangeEvents::ChangeTableName(s("accounts")));
    t.add_table_change_event(TableChangeEvents::ChangeTableName(s("clients")));
    assert_eq!(t.get_table_change_events(), vec![TableChangeEvents::ChangeTableName(s("clients"))]);
}

#[test]
fn change_type_and_back_cancels() {
    let mut t = users_table();
    t.add_table_change_event(TableChangeEvents::ChangeColumnDataType(s("name"), DataType::INTEGER));
    t.add_table_change_event(TableChangeEvents::ChangeColumnDataType(s("name"), DataType::TEXT));
    assert!(t.get_table_change_events().is_empty());
}

#[test]
fn rename_column_and_back_cancels() {
    let mut t = users_table();
    t.add_table_change_event(TableChangeEvents::ChangeColumnName(s("name"), s("title")));
    t.add_table_change_event(TableChangeEvents::ChangeColumnName(s("title"), s("name")));
    assert!(t.get_table_change_events().is_empty());
}

#[test]
fn renames_merge_into_one() {
    let mut t = users_table();
    t.add_table_change_event(TableChangeEvents::ChangeColumnName(s("name"), s("title")));
    t.add_table_change_event(TableChangeEvents::ChangeColumnName(s("title"), s("label")));
    assert_eq!(
        t.get_table_change_events(),
        vec![TableChangeEvents::ChangeColumnName(s("name"), s("label"))]
    );
}

#[test]
fn rename_to_same_name_changes_nothing() {
    let mut t = users_table();
    t.add_table_change_event(TableChangeEvents::ChangeColumnName(s("name"), s("name")));
    assert!(t.get_table_change_events().is_empty());
}

#[test]
fn removing_added_column_with_its_key_drops_both() {
    let mut t = users_table();
    t.add_table_change_event(TableChangeEvents::AddColumn(s("phone"), DataType::TEXT));
    t.add_table_change_event(TableChangeEvents::AddPrimaryKey(s("phone")));
    t.add_table_change_event(TableChangeEvents::RemoveColumn(s("phone")));
    assert!(t.get_table_change_events().is_empty());
}

#[test]
fn removing_renamed_column_removes_original() {
    let mut t = users_table();
    t.add_table_change_event(TableChangeEvents::ChangeColumnName(s("name"), s("title")));
    t.add_table_change_event(TableChangeEvents::RemoveColumn(s("title")));
    assert_eq!(t.get_table_change_events(), vec![TableChangeEvents::RemoveColumn(s("name"))]);
}

#[test]
fn readding_removed_column_with_other_type_changes_type() {
    let mut t = users_table();
    t.add_table_change_event(TableChangeEvents::RemoveColumn(s("name")));
    t.add_table_change_event(TableChangeEvents::AddColumn(s("name"), DataType::INTEGER));
    assert_eq!(
        t.get_table_change_events(),
        vec![TableChangeEvents::ChangeColumnDataType(s("name"), DataType::INTEGER)]
    );
}

#[test]
fn alter_table_with_no_change_gives_no_statement() {
    let mut t = users_table();
    assert!(t.alter_table().is_empty());
    assert_eq!(t.table_name, Some(s("users")));
}

#[test]
fn reset_table_info_forgets_table() {
    let mut t = users_table();
    t.add_table_change_event(TableChangeEvents::AddColumn(s("age"), DataType::INTEGER));
    t.reset_table_info();
    assert_eq!(t.table_name, None);
    assert!(t.columns_info.is_empty());
    assert!(t.get_table_change_events().is_empty());
}

#[test]
fn primary_key_counts() {
    let mut t = users_table();
    t.add_table_change_event(TableChangeEvents::AddPrimaryKey(s("name")));
    assert_eq!(t.add_primary_key_events_count(), 1);
    assert!(t.at_least_one_primary_key());
}

#[test]
fn reading_a_table_clears_the_console() {
    let mut repository = RepositoryConsole::new();
    repository.write(s("connected"));
    let mut console = Console::new(repository);
    console.write(s("old message"));
    let mut t = TableInfo::new();
    t.set_table_info(s("empty"), vec![], &mut console);
    assert!(console.get_messages().is_empty());
    assert_eq!(console.get_database_messages(), vec![s("connected")]);
}

#[test]
fn removing_added_column_drops_its_pending_keys() {
    for key_first in [true, false] {
        let mut t = users_table();
        t.add_table_change_event(TableChangeEvents::ChangeTableName(s("people")));
        t.add_table_change_event(TableChangeEvents::AddColumn(s("team"), DataType::TEXT));
        let fk = TableChangeEvents::AddForeignKey(ColumnForeignKey {
            column_name: s("team"),
            referenced_table: s("teams"),
            referenced_column: s("code"),
        });
        let pk = TableChangeEvents::AddPrimaryKey(s("team"));
        if key_first {
            t.add_table_change_event(pk);
            t.add_table_change_event(fk);
        } else {
            t.add_table_change_event(fk);
            t.add_table_change_event(pk);
        }
        t.add_table_change_event(TableChangeEvents::RemoveColumn(s("team")));
        assert_eq!(
            t.get_table_change_events(),
            vec![TableChangeEvents::ChangeTableName(s("people"))]
        );
    }
}
