use crm::schemas::{Column, ColumnsInfo, Constraint, DataType};

#[test]
fn to_datatype_reads_information_schema_names() {
    assert_eq!(DataType::to_datatype(String::from("text")), DataType::TEXT);
    assert_eq!(DataType::to_datatype(String::from("integer")), DataType::INTEGER);
    assert_eq!(
        DataType::to_datatype(String::from("timestamp without time zone")),
        DataType::TIMESTAMP
    );
    assert_eq!(DataType::to_datatype(String::from("boolean")), DataType::BOOLEAN);
}

#[test]
fn datatype_sql_names() {
    assert_eq!(DataType::TEXT.sql_name(), "TEXT");
    assert_eq!(DataType::INTEGER.sql_name(), "INTEGER");
    assert_eq!(DataType::TIMESTAMP.sql_name(), "TIMESTAMP");
    assert_eq!(DataType::BOOLEAN.sql_name(), "BOOLEAN");
}

#[test]
fn to_constraint_reads_key_rows() {
    assert_eq!(
        Constraint::to_constraint(String::from("PRIMARY KEY"), None, None),
        Constraint::PrimaryKey
    );
    assert_eq!(
        Constraint::to_constraint(
            String::from("FOREIGN KEY"),
            Some(String::from("users")),
            Some(String::from("id"))
        ),
        Constraint::ForeignKey(String::from("users"), String::from("id"))
    );
}

#[test]
fn constraint_text() {
    assert_eq!(Constraint::PrimaryKey.to_text(), "PRIMARY KEY");
    assert_eq!(
        Constraint::ForeignKey(String::from("users"), String::from("id")).to_text(),
        "REFERENCES users(id)"
    );
}

#[test]
fn to_column_zips_constraint_rows() {
    let info = ColumnsInfo {
        column_name: String::from("owner_id"),
        data_type: String::from("integer"),
        constraint_types: vec![String::from("PRIMARY KEY"), String::from("FOREIGN KEY")],
        referenced_tables: vec![None, Some(String::from("users"))],
        referenced_columns: vec![None, Some(String::from("id"))],
    };
    let column = Column::to_column(info);
    assert_eq!(
        column,
        Column {
            name: String::from("owner_id"),
            datatype: DataType::INTEGER,
            constraints: vec![
                Constraint::PrimaryKey,
                Constraint::ForeignKey(String::from("users"), String::from("id"))
            ],
        }
    );
}

#[test]
fn to_column_stops_at_shortest_list() {
    let info = ColumnsInfo {
        column_name: String::from("name"),
        data_type: String::from("text"),
        constraint_types: vec![String::from("PRIMARY KEY")],
        referenced_tables: vec![],
        referenced_columns: vec![None],
    };
    let column = Column::to_column(info);
    assert_eq!(column.constraints, vec![]);
    assert_eq!(column.datatype, DataType::TEXT);
}

#[test]
fn default_column_is_empty_text() {
    let c = Column::default();
    assert_eq!(c.name, "");
    assert_eq!(c.datatype, DataType::TEXT);
    assert!(c.constraints.is_empty());
}
