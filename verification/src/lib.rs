//! Business logic of a small database administration tool: table schemas,
//! the log of pending schema changes, the SQL that applies them, and the
//! state kept by the screens that edit tables.

pub mod strings;
pub mod ordering;
pub mod schemas;
pub mod events;
pub mod table_info;
pub mod sql;
pub mod laws;
pub mod test_utils;
pub mod components;
pub mod forms;
pub mod table_info_ui;
pub mod filter;
pub mod row_changes;
pub mod table_data;
pub mod tables_ui;
