use crm::forms::{
    edit_column, find_foreign_key, find_primary_key, toggle_table, ColumnEdit,
    CreateTableFormMessage, CreateTableFormUI,
};
use crm::schemas::{Column, Constraint, DataType, TableGeneralInfo, TableIn};

fn s(x: &str) -> String {
    String::from(x)
}

fn col(name: &str, datatype: DataType, constraints: Vec<Constraint>) -> Column {
    Column { name: s(name), datatype, constraints }
}

#[test]
fn new_form_is_empty() {
    let form = CreateTableFormUI::new(None);
    assert_eq!(form.create_table_input.table_name, "");
    assert!(form.create_table_input.columns.is_empty());
    assert!(form.tables_general_info.is_none());
    assert_eq!(form.active_foreign_key_dropdown_column, None);
    assert_eq!(form.active_foreign_key_table_within_dropdown, None);
}

#[test]
fn showing_an_empty_form_adds_the_id_key() {
    let mut form = CreateTableFormUI::new(None);
    form.update(CreateTableFormMessage::ShowOrRemoveCreateTableForm);
    assert_eq!(
        form.create_table_input.columns,
        vec![col("id", DataType::INTEGER, vec![Constraint::PrimaryKey])]
    );
    // Showing it again keeps the columns as they are.
    form.update(CreateTableFormMessage::ShowOrRemoveCreateTableForm);
    assert_eq!(form.create_table_input.columns.len(), 1);
}

#[test]
fn form_edits_columns() {
    let mut form = CreateTableFormUI::new(None);
    form.update(CreateTableFormMessage::UpdateTableName(s("orders")));
    form.update(CreateTableFormMessage::AddColumn);
    form.update(CreateTableFormMessage::AddColumn);
    form.update(CreateTableFormMessage::UpdateColumnName(0, s("user_id")));
    form.update(CreateTableFormMessage::UpdateColumnType(0, DataType::INTEGER));
    form.update(CreateTableFormMessage::SetOrRemovePrimaryKey(0));
    form.update(CreateTableFormMessage::UpdateColumnName(1, s("note")));
    assert_eq!(form.create_table_input.table_name, "orders");
    assert_eq!(
        form.create_table_input.columns,
        vec![
            col("user_id", DataType::INTEGER, vec![Constraint::PrimaryKey]),
            col("note", DataType::TEXT, vec![]),
        ]
    );
    form.update(CreateTableFormMessage::SetOrRemovePrimaryKey(0));
    assert!(form.create_table_input.columns[0].constraints.is_empty());
    form.update(CreateTableFormMessage::RemoveColumn(1));
    assert_eq!(form.create_table_input.columns.len(), 1);
    // An index past the end changes nothing.
    form.update(CreateTableFormMessage::RemoveColumn(5));
    form.update(CreateTableFormMessage::UpdateColumnName(5, s("x")));
    assert_eq!(
        form.create_table_input.columns,
        vec![col("user_id", DataType::INTEGER, vec![])]
    );
}

#[test]
fn form_foreign_keys_replace_and_close_the_dropdown() {
    let mut form = CreateTableFormUI::new(None);
    form.update(CreateTableFormMessage::AddColumn);
    form.update(CreateTableFormMessage::ToggleForeignKeyDropdown(0));
    assert_eq!(form.active_foreign_key_dropdown_column, Some(0));
    form.update(CreateTableFormMessage::ToggleForeignKeyTable(0, s("users")));
    assert_eq!(form.active_foreign_key_table_within_dropdown, Some(s("users")));
    form.update(CreateTableFormMessage::AddForeignKey(0, s("users"), s("id")));
    assert_eq!(form.active_foreign_key_dropdown_column, None);
    assert_eq!(form.active_foreign_key_table_within_dropdown, None);
    form.update(CreateTableFormMessage::AddForeignKey(0, s("teams"), s("code")));
    assert_eq!(
        form.create_table_input.columns[0].constraints,
        vec![Constraint::ForeignKey(s("teams"), s("code"))]
    );
    form.update(CreateTableFormMessage::RemoveForeignKey(0));
    assert!(form.create_table_input.columns[0].constraints.is_empty());
}

#[test]
fn dropdown_toggles_close_when_chosen_twice() {
    let mut form = CreateTableFormUI::new(None);
    form.update(CreateTableFormMessage::ToggleForeignKeyDropdown(2));
    form.update(CreateTableFormMessage::ToggleForeignKeyDropdown(2));
    assert_eq!(form.active_foreign_key_dropdown_column, None);
    let mut open = Some(s("users"));
    toggle_table(&mut open, s("users"));
    assert_eq!(open, None);
    toggle_table(&mut open, s("teams"));
    assert_eq!(open, Some(s("teams")));
    toggle_table(&mut open, s("users"));
    assert_eq!(open, Some(s("users")));
}

#[test]
fn table_created_resets_the_form() {
    let tables = vec![TableGeneralInfo {
        table_name: s("users"),
        column_names: vec![s("id")],
        data_types: vec![DataType::INTEGER],
    }];
    let mut form = CreateTableFormUI::new(Some(tables.clone()));
    form.update(CreateTableFormMessage::UpdateTableName(s("orders")));
    form.update(CreateTableFormMessage::AddColumn);
    form.update(CreateTableFormMessage::TableCreated(s("orders")));
    assert_eq!(form.create_table_input, TableIn { table_name: s(""), columns: vec![] });
    assert_eq!(form.tables_general_info, Some(tables));
}

#[test]
fn submitting_leaves_the_form_as_it_is() {
    let mut form = CreateTableFormUI::new(None);
    form.update(CreateTableFormMessage::AddColumn);
    let input = form.create_table_input.clone();
    form.update(CreateTableFormMessage::SubmitCreateTable(input.clone()));
    assert_eq!(form.create_table_input, input);
}

#[test]
fn edit_column_keeps_other_constraints() {
    let mut c = col(
        "a",
        DataType::TEXT,
        vec![Constraint::ForeignKey(s("t"), s("c")), Constraint::PrimaryKey],
    );
    assert_eq!(find_primary_key(&c.constraints), Some(1));
    assert_eq!(find_foreign_key(&c.constraints), Some(0));
    edit_column(&mut c, ColumnEdit::TogglePrimaryKey);
    assert_eq!(c.constraints, vec![Constraint::ForeignKey(s("t"), s("c"))]);
    edit_column(&mut c, ColumnEdit::TogglePrimaryKey);
    edit_column(&mut c, ColumnEdit::SetForeignKey(s("u"), s("d")));
    assert_eq!(
        c.constraints,
        vec![Constraint::PrimaryKey, Constraint::ForeignKey(s("u"), s("d"))]
    );
    edit_column(&mut c, ColumnEdit::DropForeignKey);
    assert_eq!(c.constraints, vec![Constraint::PrimaryKey]);
    assert_eq!(find_foreign_key(&c.constraints), None);
    edit_column(&mut c, ColumnEdit::Name(s("b")));
    edit_column(&mut c, ColumnEdit::Type(DataType::BOOLEAN));
    assert_eq!(c, col("b", DataType::BOOLEAN, vec![Constraint::PrimaryKey]));
}
