use crm::components::{Console, RepositoryConsole};
use crm::forms::CreateTableFormMessage;
use crm::schemas::{
    Column, ColumnForeignKey, ColumnsInfo, Constraint, DataType, TableChangeEvents,
    TableGeneralInfo, TableIn, TableInsertedData,
};
use crm::row_changes::{ColumnValue, RowColumnValue, TableDataChangeEvents};
use crm::table_data::{
    TableData, TableDataInserter, TableDataMessage, TableDataTask, TableDataUI,
};
use crm::table_info::TableInfo;
use crm::table_info_ui::{
    TableInfoForeignKeyDropdown, TableInfoMessage, TableInfoTask, TableInfoUI,
};
use crm::tables_ui::{TablesMessage, TablesTask, TablesUI};

fn s(x: &str) -> String {
    String::from(x)
}

fn users_info() -> TableGeneralInfo {
    TableGeneralInfo {
        table_name: s("users"),
        column_names: vec![s("id"), s("name")],
        data_types: vec![DataType::INTEGER, DataType::TEXT],
    }
}

fn teams_info() -> TableGeneralInfo {
    TableGeneralInfo {
        table_name: s("teams"),
        column_names: vec![s("code")],
        data_types: vec![DataType::TEXT],
    }
}

fn users_table() -> TableInfo {
    let mut t = TableInfo::new();
    let mut console = Console::new(RepositoryConsole::new());
    t.set_table_info(
        s("users"),
        vec![
            ColumnsInfo {
                column_name: s("id"),
                data_type: s("integer"),
                constraint_types: vec![s("PRIMARY KEY")],
                referenced_tables: vec![None],
                referenced_columns: vec![None],
            },
            ColumnsInfo {
                column_name: s("name"),
                data_type: s("text"),
                constraint_types: vec![],
                referenced_tables: vec![],
                referenced_columns: vec![],
            },
        ],
        &mut console,
    );
    t
}

fn event_of(task: TableInfoTask) -> TableChangeEvents {
    match task {
        TableInfoTask::Message(TableInfoMessage::AddTableChangeEvent(e)) => e,
        other => panic!("expected a change to record, got {:?}", other),
    }
}

// ---------------------------------------------------------------------------
// The screen that edits a table
// ---------------------------------------------------------------------------

#[test]
fn table_info_ui_shows_the_table() {
    let ui = TableInfoUI::new(users_table(), vec![users_info()]);
    assert_eq!(ui.get_table_name(), "users");
    assert_eq!(ui.table_name_display, "users");
    assert_eq!(ui.columns_display.len(), 2);
    assert_eq!(ui.columns_display[0].name, "id");
    assert!(ui.active_foreign_key_dropdown.is_none());
}

#[test]
fn table_info_ui_turns_edits_into_changes() {
    let mut ui = TableInfoUI::new(users_table(), vec![users_info()]);
    let e = event_of(ui.update(TableInfoMessage::UpdateColumnName(1, s("username"))));
    assert_eq!(e, TableChangeEvents::ChangeColumnName(s("name"), s("username")));
    assert_eq!(ui.columns_display[1].name, "username");

    let e = event_of(ui.update(TableInfoMessage::UpdateColumnType(1, DataType::BOOLEAN)));
    assert_eq!(e, TableChangeEvents::ChangeColumnDataType(s("username"), DataType::BOOLEAN));

    let e = event_of(ui.update(TableInfoMessage::SetOrRemovePrimaryKey(0)));
    assert_eq!(e, TableChangeEvents::RemovePrimaryKey(s("id")));
    let e = event_of(ui.update(TableInfoMessage::SetOrRemovePrimaryKey(0)));
    assert_eq!(e, TableChangeEvents::AddPrimaryKey(s("id")));

    let e = event_of(ui.update(TableInfoMessage::AddForeignKey(1, s("teams"), s("code"))));
    assert_eq!(
        e,
        TableChangeEvents::AddForeignKey(ColumnForeignKey {
            column_name: s("username"),
            referenced_table: s("teams"),
            referenced_column: s("code"),
        })
    );
    let e = event_of(ui.update(TableInfoMessage::RemoveForeignKey(1)));
    assert_eq!(e, TableChangeEvents::RemoveForeignKey(s("username")));

    let e = event_of(ui.update(TableInfoMessage::AddColumn));
    assert_eq!(e, TableChangeEvents::AddColumn(s(""), DataType::TEXT));
    assert_eq!(ui.columns_display.len(), 3);
    let e = event_of(ui.update(TableInfoMessage::RemoveColumn(2)));
    assert_eq!(e, TableChangeEvents::RemoveColumn(s("")));

    let e = event_of(ui.update(TableInfoMessage::UpdateTableName(s("people"))));
    assert_eq!(e, TableChangeEvents::ChangeTableName(s("people")));
    assert_eq!(ui.table_name_display, "people");
    // The table itself only changes when a change is recorded.
    assert!(ui.table_info.get_table_change_events().is_empty());
}

#[test]
fn table_info_ui_ignores_columns_past_the_end() {
    let mut ui = TableInfoUI::new(users_table(), vec![]);
    assert_eq!(ui.update(TableInfoMessage::RemoveColumn(7)), TableInfoTask::Nothing);
    assert_eq!(ui.update(TableInfoMessage::UpdateColumnName(7, s("x"))), TableInfoTask::Nothing);
    assert_eq!(ui.update(TableInfoMessage::SetOrRemovePrimaryKey(7)), TableInfoTask::Nothing);
    assert_eq!(ui.columns_display.len(), 2);
}

#[test]
fn table_info_ui_records_and_submits_changes() {
    let mut ui = TableInfoUI::new(users_table(), vec![users_info()]);
    let task = ui.update(TableInfoMessage::AddTableChangeEvent(TableChangeEvents::ChangeTableName(
        s("people"),
    )));
    assert_eq!(task, TableInfoTask::ShowPendingChanges);
    assert_eq!(
        ui.table_info.get_table_change_events(),
        vec![TableChangeEvents::ChangeTableName(s("people"))]
    );
    match ui.update(TableInfoMessage::SubmitUpdateTable) {
        TableInfoTask::ApplyQueries(q) => {
            assert_eq!(q, vec![s("ALTER TABLE \"users\" RENAME TO \"people\"")]);
        }
        other => panic!("expected statements, got {:?}", other),
    }
    assert_eq!(ui.get_table_name(), "people");
    assert!(ui.table_info.get_table_change_events().is_empty());
    assert_eq!(ui.update(TableInfoMessage::UpdateTableInfoUI), TableInfoTask::Nothing);
    assert_eq!(ui.table_name_display, "people");
}

#[test]
fn table_info_ui_dropdown_opens_and_closes() {
    let mut ui = TableInfoUI::new(users_table(), vec![users_info(), teams_info()]);
    ui.update(TableInfoMessage::ToggleForeignKeyDropdown(1));
    {
        let d = ui.active_foreign_key_dropdown.as_ref().unwrap();
        assert_eq!(d.index, 1);
        assert_eq!(d.column.name, "name");
        assert_eq!(d.tables_general_info.len(), 2);
    }
    ui.update(TableInfoMessage::ToggleForeignKeyTable(1, s("teams")));
    assert_eq!(
        ui.active_foreign_key_dropdown.as_ref().unwrap().active_foreign_key_table_within_dropdown,
        Some(s("teams"))
    );
    ui.update(TableInfoMessage::ToggleForeignKeyDropdown(1));
    assert!(ui.active_foreign_key_dropdown.is_none());
}

#[test]
fn foreign_key_dropdown_messages() {
    let d = TableInfoForeignKeyDropdown;
    assert_eq!(
        d.add_foreign_key(2, s("teams"), s("code")),
        TableInfoMessage::AddForeignKey(2, s("teams"), s("code"))
    );
    assert_eq!(d.remove_foreign_key(2), TableInfoMessage::RemoveForeignKey(2));
    assert_eq!(
        d.toggle_foreign_key_table(2, s("teams")),
        TableInfoMessage::ToggleForeignKeyTable(2, s("teams"))
    );
}

// ---------------------------------------------------------------------------
// The screen that lists the tables
// ---------------------------------------------------------------------------

#[test]
fn tables_ui_loads_and_filters_tables() {
    let mut ui = TablesUI::new();
    assert!(matches!(ui.update(TablesMessage::InitializeComponent), TablesTask::LoadTables));
    assert!(matches!(
        ui.update(TablesMessage::SetTables(vec![users_info(), teams_info()])),
        TablesTask::Nothing
    ));
    assert_eq!(ui.tables_general_info.len(), 2);
    assert_eq!(ui.create_table_form.tables_general_info.as_ref().unwrap().len(), 2);
    assert_eq!(ui.listed_tables(), vec![s("users"), s("teams")]);
    ui.update(TablesMessage::UpdateTableFilter(s("US")));
    assert_eq!(ui.listed_tables(), vec![s("users")]);
    ui.update(TablesMessage::UpdateTableFilter(s("^t")));
    assert_eq!(ui.listed_tables(), vec![s("teams")]);
    // A filter that is no valid expression lists every table.
    ui.update(TablesMessage::UpdateTableFilter(s("(")));
    assert_eq!(ui.listed_tables(), vec![s("users"), s("teams")]);
}

#[test]
fn tables_ui_creates_a_table() {
    let mut ui = TablesUI::new();
    ui.update(TablesMessage::ShowOrRemoveCreateTableForm);
    assert!(ui.show_create_table_form);
    assert_eq!(
        ui.create_table_form.create_table_input.columns,
        vec![Column { name: s(""), datatype: DataType::TEXT, constraints: vec![] }]
    );
    // Hiding and showing it again keeps the column.
    ui.update(TablesMessage::ShowOrRemoveCreateTableForm);
    assert!(!ui.show_create_table_form);
    ui.update(TablesMessage::ShowOrRemoveCreateTableForm);
    assert_eq!(ui.create_table_form.create_table_input.columns.len(), 1);
    let table = TableIn {
        table_name: s("teams"),
        columns: vec![Column {
            name: s("code"),
            datatype: DataType::TEXT,
            constraints: vec![Constraint::PrimaryKey],
        }],
    };
    match ui.update(TablesMessage::CreateTableForm(CreateTableFormMessage::SubmitCreateTable(table))) {
        TablesTask::CreateTable { query, table_name } => {
            assert_eq!(query, "CREATE TABLE \"teams\" (\"code\" TEXT, PRIMARY KEY (\"code\"))");
            assert_eq!(table_name, "teams");
        }
        other => panic!("expected a table to create, got {:?}", other),
    }
    match ui.update(TablesMessage::CreateTableForm(CreateTableFormMessage::TableCreated(s("teams")))) {
        TablesTask::Message(TablesMessage::GetSingleTableInfo(n)) => assert_eq!(n, "teams"),
        other => panic!("expected the new table to be read, got {:?}", other),
    }
    assert!(!ui.show_create_table_form);
    assert!(ui.create_table_form.create_table_input.columns.is_empty());
}

#[test]
fn tables_ui_edits_the_chosen_table() {
    let mut ui = TablesUI::new();
    match ui.update(TablesMessage::GetSingleTableInfo(s("users"))) {
        TablesTask::LoadTableInfo(n) => assert_eq!(n, "users"),
        other => panic!("expected the table to be read, got {:?}", other),
    }
    // Without a table shown, its messages do nothing.
    assert!(matches!(
        ui.update(TablesMessage::SingleTableInfo(TableInfoMessage::AddColumn)),
        TablesTask::Nothing
    ));
    ui.update(TablesMessage::SetSingleTableInfo(users_table()));
    assert_eq!(ui.single_table_info.as_ref().unwrap().table_name_display, "users");
    match ui.update(TablesMessage::SingleTableInfo(TableInfoMessage::UpdateTableName(s("people")))) {
        TablesTask::Message(TablesMessage::SingleTableInfo(TableInfoMessage::AddTableChangeEvent(e))) => {
            assert_eq!(e, TableChangeEvents::ChangeTableName(s("people")));
        }
        other => panic!("expected a change to record, got {:?}", other),
    }
    ui.update(TablesMessage::UndisplayTableInfo);
    assert!(ui.single_table_info.is_none());
}

#[test]
fn tables_ui_deletes_after_confirmation() {
    let mut ui = TablesUI::new();
    ui.update(TablesMessage::RequestDeleteTable(s("users")));
    assert_eq!(ui.table_to_delete, Some(s("users")));
    ui.update(TablesMessage::CancelDeleteTable);
    assert_eq!(ui.table_to_delete, None);
    assert!(matches!(ui.update(TablesMessage::ConfirmDeleteTable), TablesTask::Nothing));
    ui.update(TablesMessage::RequestDeleteTable(s("users")));
    match ui.update(TablesMessage::ConfirmDeleteTable) {
        TablesTask::DeleteTable(q) => assert_eq!(q, "DROP TABLE users"),
        other => panic!("expected a table to drop, got {:?}", other),
    }
    assert_eq!(ui.table_to_delete, None);
}

// ---------------------------------------------------------------------------
// The screen that shows rows
// ---------------------------------------------------------------------------

#[test]
fn table_data_takes_rows_of_known_tables() {
    let mut data = TableData::new(vec![users_info()]);
    assert!(data.table_inserted_data.is_none());
    data.set_table_data(s("orders"), vec![vec![s("1")]], vec![s("id")]);
    assert!(data.table_inserted_data.is_none());
    data.set_table_data(s("users"), vec![vec![s("1"), s("ann")]], vec![s("id")]);
    assert_eq!(
        data.table_inserted_data,
        Some(TableInsertedData {
            table_name: s("users"),
            column_names: vec![s("id"), s("name")],
            data_types: vec![DataType::INTEGER, DataType::TEXT],
            rows: vec![vec![s("1"), s("ann")]],
        })
    );
    assert_eq!(data.primary_key_column_names, vec![s("id")]);
}

#[test]
fn inserter_reads_column_names() {
    let none = TableDataInserter::new(None, vec![users_info()]);
    assert_eq!(none.get_column_names(), None);
    let unknown = TableDataInserter::new(Some(s("orders")), vec![users_info()]);
    assert_eq!(unknown.get_column_names(), None);
    let users = TableDataInserter::new(Some(s("users")), vec![teams_info(), users_info()]);
    assert_eq!(users.get_column_names(), Some(vec![s("id"), s("name")]));
}

#[test]
fn table_data_ui_edits_rows_on_screen() {
    let mut data = TableData::new(vec![users_info()]);
    data.set_table_data(s("users"), vec![vec![s("1"), s("ann")], vec![s("2"), s("bob")]], vec![]);
    let mut ui = TableDataUI::new(data);
    assert_eq!(ui.get_table_name(), None);
    assert_eq!(ui.update(TableDataMessage::ResetTableData), TableDataTask::Nothing);
    assert_eq!(
        ui.update(TableDataMessage::GetTableData(s("users"))),
        TableDataTask::LoadTableData(s("users"))
    );
    assert_eq!(ui.selected_table_name, Some(s("users")));
    assert_eq!(
        ui.update(TableDataMessage::ResetTableData),
        TableDataTask::Message(TableDataMessage::GetTableData(s("users")))
    );
    assert_eq!(ui.update(TableDataMessage::SetTableData), TableDataTask::Nothing);
    assert_eq!(ui.get_table_name(), Some(s("users")));

    ui.update(TableDataMessage::UpdateCell(1, 1, s("carl")));
    ui.update(TableDataMessage::UpdateCell(9, 0, s("x")));
    ui.update(TableDataMessage::AddRow);
    ui.update(TableDataMessage::DeleteRow(0));
    assert_eq!(
        ui.table_inserted_data.as_ref().unwrap().rows,
        vec![vec![s("2"), s("carl")], vec![s(""), s("")]]
    );
    // The rows read from the database stay as they were.
    assert_eq!(ui.table_data.table_inserted_data.as_ref().unwrap().rows.len(), 2);
    // Without a primary key, every column identifies a row.
    assert_eq!(
        ui.update(TableDataMessage::UpdateTableData),
        TableDataTask::SaveTableData {
            table_name: s("users"),
            queries: vec![
                s("UPDATE \"users\" SET \"name\" = 'carl' WHERE COALESCE(\"id\"::TEXT, '') = '2' AND COALESCE(\"name\"::TEXT, '') = 'bob'"),
                s("INSERT INTO \"users\" (\"id\", \"name\") VALUES (NULL, NULL)"),
                s("DELETE FROM \"users\" WHERE COALESCE(\"id\"::TEXT, '') = '1' AND COALESCE(\"name\"::TEXT, '') = 'ann'"),
            ],
        }
    );
}

#[test]
fn table_data_ui_records_row_changes_by_key() {
    let mut data = TableData::new(vec![users_info()]);
    data.set_table_data(
        s("users"),
        vec![vec![s("1"), s("ann")], vec![s("2"), s("bob")]],
        vec![s("id")],
    );
    let mut ui = TableDataUI::new(data);
    ui.update(TableDataMessage::SetTableData);
    assert_eq!(
        ui.update(TableDataMessage::UpdateCell(0, 1, s("anne"))),
        TableDataTask::ShowPendingChanges
    );
    ui.update(TableDataMessage::UpdateCell(1, 1, s("bo'b")));
    // A later edit of the same row replaces the pending one, whatever its column.
    ui.update(TableDataMessage::UpdateCell(0, 1, s("annie")));
    ui.update(TableDataMessage::UpdateCell(0, 0, s("7")));
    let log = &ui.table_data.table_data_change_events;
    assert_eq!(log.len(), 2);
    assert_eq!(
        log[1],
        TableDataChangeEvents::ModifyRowColumnValue(RowColumnValue {
            conditions: vec![ColumnValue { column_name: s("id"), value: s("1") }],
            column_name: s("id"),
            value: s("7"),
        })
    );
    // An edit outside the rows records nothing.
    assert_eq!(ui.update(TableDataMessage::UpdateCell(5, 0, s("x"))), TableDataTask::Nothing);
    assert_eq!(ui.update(TableDataMessage::DeleteRow(1)), TableDataTask::ShowPendingChanges);
    assert_eq!(
        ui.table_data.table_data_change_events[2],
        TableDataChangeEvents::DeleteRow(vec![ColumnValue { column_name: s("id"), value: s("2") }])
    );
    match ui.update(TableDataMessage::UpdateTableData) {
        TableDataTask::SaveTableData { table_name, queries } => {
            assert_eq!(table_name, "users");
            assert_eq!(
                queries,
                vec![
                    s("UPDATE \"users\" SET \"name\" = 'bo''b' WHERE COALESCE(\"id\"::TEXT, '') = '2'"),
                    s("UPDATE \"users\" SET \"id\" = '7' WHERE COALESCE(\"id\"::TEXT, '') = '1'"),
                    s("DELETE FROM \"users\" WHERE COALESCE(\"id\"::TEXT, '') = '2'"),
                ]
            );
        }
        other => panic!("expected statements that save the rows, got {:?}", other),
    }
    // Reading the rows again forgets the saved changes.
    ui.table_data.set_table_data(s("users"), vec![vec![s("7"), s("annie")]], vec![s("id")]);
    assert!(ui.table_data.table_data_change_events.is_empty());
}

#[test]
fn saving_without_rows_read_only_shows_them_again() {
    let mut ui = TableDataUI::new(TableData::new(vec![users_info()]));
    assert_eq!(
        ui.update(TableDataMessage::UpdateTableData),
        TableDataTask::Message(TableDataMessage::SetTableData)
    );
}
