use vstd::prelude::*;
use crate::forms::{
    column_view, columns_view, default_column_view, duplicate_general_infos, edit_columns,
    push_default_column, remove_column_at, same_general_info, spec_edit_columns, ColumnEdit,
};
use crate::schemas::{Column, ColumnForeignKey, DataType, TableChangeEvents, TableGeneralInfo};
use crate::sql::views;
use crate::table_info::{column_has_primary_key, has_primary_key, spec_table_updated, TableInfo};

verus! {

/// The messages of the screen that edits a table.
#[derive(Debug, Clone, PartialEq)]
pub enum TableInfoMessage {
    AddColumn,
    RemoveColumn(usize),
    UpdateColumnName(usize, String),
    UpdateColumnType(usize, DataType),
    UpdateTableName(String),
    SubmitUpdateTable,
    UpdateTableInfoUI,
    ToggleForeignKeyDropdown(usize),
    ToggleForeignKeyTable(usize, String),
    AddForeignKey(usize, String, String),
    RemoveForeignKey(usize),
    SetOrRemovePrimaryKey(usize),
    AddTableChangeEvent(TableChangeEvents),
    TableChangeEventDone,
}

/// What the screen that edits a table asks to be done after a message.
#[derive(Debug, Clone, PartialEq)]
pub enum TableInfoTask {
    Nothing,
    /// Handle this message next.
    Message(TableInfoMessage),
    /// Run these statements on the database, read the table again into
    /// the screen's table, then handle `UpdateTableInfoUI`.
    ApplyQueries(Vec<String>),
    /// Show the pending changes of the screen's table on the console, as
    /// one line.
    ShowPendingChanges,
}

/// The messages that the foreign key dropdown of the screen sends.
#[derive(Debug, Clone, Copy, PartialEq, Eq, Structural)]
pub struct TableInfoForeignKeyDropdown;

impl TableInfoForeignKeyDropdown {
    /// The message that gives column `index` a foreign key.
    pub fn add_foreign_key(&self, index: usize, referenced_table_name: String, referenced_column_name: String) -> (res: TableInfoMessage)
        ensures
            res == TableInfoMessage::AddForeignKey(index, referenced_table_name, referenced_column_name),
    {
        TableInfoMessage::AddForeignKey(index, referenced_table_name, referenced_column_name)
    }

    /// The message that takes the foreign key of column `index` away.
    pub fn remove_foreign_key(&self, index: usize) -> (res: TableInfoMessage)
        ensures
            res == TableInfoMessage::RemoveForeignKey(index),
    {
        TableInfoMessage::RemoveForeignKey(index)
    }

    /// The message that lists the columns of `table_name` in the dropdown.
    pub fn toggle_foreign_key_table(&self, index: usize, table_name: String) -> (res: TableInfoMessage)
        ensures
            res == TableInfoMessage::ToggleForeignKeyTable(index, table_name),
    {
        TableInfoMessage::ToggleForeignKeyTable(index, table_name)
    }
}

/// The open foreign key dropdown of a column.
#[derive(Debug)]
pub struct ForeignKeyDropDownUI {
    pub column: Column,
    pub tables_general_info: Vec<TableGeneralInfo>,
    pub active_foreign_key_table_within_dropdown: Option<String>,
    pub index: usize,
}

/// The screen that edits a table: the table, the tables a foreign key can
/// refer to, and the name and columns as the user has edited them.
#[derive(Debug)]
pub struct TableInfoUI {
    pub table_info: TableInfo,
    pub tables_general_info: Vec<TableGeneralInfo>,
    pub table_name_display: String,
    pub columns_display: Vec<Column>,
    pub active_foreign_key_dropdown: Option<ForeignKeyDropDownUI>,
}

/// The columns shown after a message.
pub open spec fn spec_displayed_columns(
    cols: Seq<(Seq<char>, DataType, Seq<crate::schemas::Constraint>)>,
    message: TableInfoMessage,
) -> Seq<(Seq<char>, DataType, Seq<crate::schemas::Constraint>)> {
    match message {
        TableInfoMessage::AddColumn => cols.push(default_column_view()),
        TableInfoMessage::RemoveColumn(i) => if i < cols.len() {
            cols.remove(i as int)
        } else {
            cols
        },
        TableInfoMessage::UpdateColumnName(i, n) => spec_edit_columns(cols, i as int, ColumnEdit::Name(n)),
        TableInfoMessage::UpdateColumnType(i, d) => spec_edit_columns(cols, i as int, ColumnEdit::Type(d)),
        TableInfoMessage::AddForeignKey(i, t, c) => spec_edit_columns(cols, i as int, ColumnEdit::SetForeignKey(t, c)),
        TableInfoMessage::RemoveForeignKey(i) => spec_edit_columns(cols, i as int, ColumnEdit::DropForeignKey),
        TableInfoMessage::SetOrRemovePrimaryKey(i) => spec_edit_columns(cols, i as int, ColumnEdit::TogglePrimaryKey),
        _ => cols,
    }
}

/// The change a message asks to record, as the screen sends it on: `Some`
/// with the kind of change and the name it is about.
pub open spec fn spec_follow_up(
    cols: Seq<Column>,
    message: TableInfoMessage,
    task: TableInfoTask,
) -> bool {
    match message {
        TableInfoMessage::AddColumn => task matches TableInfoTask::Message(
            TableInfoMessage::AddTableChangeEvent(TableChangeEvents::AddColumn(n, d)),
        ) && n@ == Seq::<char>::empty() && d == DataType::TEXT,
        TableInfoMessage::RemoveColumn(i) => if i < cols.len() {
            task matches TableInfoTask::Message(
                TableInfoMessage::AddTableChangeEvent(TableChangeEvents::RemoveColumn(n)),
            ) && n@ == cols[i as int].name@
        } else {
            task == TableInfoTask::Nothing
        },
        TableInfoMessage::UpdateColumnName(i, new_name) => if i < cols.len() {
            task matches TableInfoTask::Message(
                TableInfoMessage::AddTableChangeEvent(TableChangeEvents::ChangeColumnName(o, n)),
            ) && o@ == cols[i as int].name@ && n == new_name
        } else {
            task == TableInfoTask::Nothing
        },
        TableInfoMessage::UpdateColumnType(i, d) => if i < cols.len() {
            task matches TableInfoTask::Message(
                TableInfoMessage::AddTableChangeEvent(TableChangeEvents::ChangeColumnDataType(n, t)),
            ) && n@ == cols[i as int].name@ && t == d
        } else {
            task == TableInfoTask::Nothing
        },
        TableInfoMessage::UpdateTableName(n) => task == TableInfoTask::Message(
            TableInfoMessage::AddTableChangeEvent(TableChangeEvents::ChangeTableName(n)),
        ),
        TableInfoMessage::AddForeignKey(i, t, c) => if i < cols.len() {
            task matches TableInfoTask::Message(
                TableInfoMessage::AddTableChangeEvent(TableChangeEvents::AddForeignKey(fk)),
            ) && fk.column_name@ == cols[i as int].name@ && fk.referenced_table == t
                && fk.referenced_column == c
        } else {
            task == TableInfoTask::Nothing
        },
        TableInfoMessage::RemoveForeignKey(i) => if i < cols.len() {
            task matches TableInfoTask::Message(
                TableInfoMessage::AddTableChangeEvent(TableChangeEvents::RemoveForeignKey(n)),
            ) && n@ == cols[i as int].name@
        } else {
            task == TableInfoTask::Nothing
        },
        TableInfoMessage::SetOrRemovePrimaryKey(i) => if i < cols.len() {
            if has_primary_key(cols[i as int]) {
                task matches TableInfoTask::Message(
                    TableInfoMessage::AddTableChangeEvent(TableChangeEvents::RemovePrimaryKey(n)),
                ) && n@ == cols[i as int].name@
            } else {
                task matches TableInfoTask::Message(
                    TableInfoMessage::AddTableChangeEvent(TableChangeEvents::AddPrimaryKey(n)),
                ) && n@ == cols[i as int].name@
            }
        } else {
            task == TableInfoTask::Nothing
        },
        TableInfoMessage::SubmitUpdateTable => task is ApplyQueries,
        TableInfoMessage::AddTableChangeEvent(_) => task == TableInfoTask::ShowPendingChanges,
        _ => task == TableInfoTask::Nothing,
    }
}

/// Whether `d` is the dropdown freshly opened on column `index` of `screen`:
/// a copy of the column and of the tables, with no table opened in it.
pub open spec fn is_fresh_dropdown(screen: TableInfoUI, index: usize, d: ForeignKeyDropDownUI) -> bool {
    &&& d.index == index
    &&& column_view(d.column) == column_view(screen.columns_display@[index as int])
    &&& d.active_foreign_key_table_within_dropdown is None
    &&& d.tables_general_info@.len() == screen.tables_general_info@.len()
    &&& forall|k: int|
        0 <= k < d.tables_general_info@.len() ==> same_general_info(
            #[trigger] d.tables_general_info@[k],
            screen.tables_general_info@[k],
        )
}

/// The open foreign key dropdown after a message: choosing a column's
/// dropdown opens it, or closes it when it is the one open; choosing a table
/// opens its columns in the open dropdown.
pub open spec fn spec_dropdown_after(
    before: TableInfoUI,
    after: Option<ForeignKeyDropDownUI>,
    message: TableInfoMessage,
) -> bool {
    match message {
        TableInfoMessage::ToggleForeignKeyDropdown(i) => if i < before.columns_display@.len() {
            if before.active_foreign_key_dropdown matches Some(d) && d.index == i {
                after is None
            } else {
                after matches Some(d) && is_fresh_dropdown(before, i, d)
            }
        } else {
            after == before.active_foreign_key_dropdown
        },
        TableInfoMessage::ToggleForeignKeyTable(_, t) => match before.active_foreign_key_dropdown {
            Some(d) => after matches Some(e) && e.index == d.index && e.column == d.column
                && e.tables_general_info == d.tables_general_info
                && e.active_foreign_key_table_within_dropdown == Some(t),
            None => after is None,
        },
        _ => after == before.active_foreign_key_dropdown,
    }
}

/// The screen `after` a message, and the task it asks for, given the screen
/// `before`.
pub open spec fn spec_screen_after(
    before: TableInfoUI,
    after: TableInfoUI,
    message: TableInfoMessage,
    task: TableInfoTask,
) -> bool {
    &&& after.tables_general_info == before.tables_general_info
    &&& spec_follow_up(before.columns_display@, message, task)
    &&& spec_dropdown_after(before, after.active_foreign_key_dropdown, message)
    &&& match message {
        TableInfoMessage::UpdateTableInfoUI => {
            &&& columns_view(after.columns_display@) == columns_view(
                before.table_info.columns_info@,
            )
            &&& after.table_name_display == before.table_info.table_name.unwrap()
            &&& after.table_info == before.table_info
        },
        TableInfoMessage::SubmitUpdateTable => {
            &&& task matches TableInfoTask::ApplyQueries(q) && spec_table_updated(
                before.table_info,
                after.table_info,
                views(q@),
            )
            &&& after.columns_display == before.columns_display
            &&& after.table_name_display == before.table_name_display
        },
        TableInfoMessage::AddTableChangeEvent(e) => {
            &&& after.table_info.events() == crate::table_info::spec_add_table_change_event(
                before.table_info.events(),
                before.table_info.columns_info@,
                before.table_info.table_name,
                e,
            )
            &&& after.table_info.table_name == before.table_info.table_name
            &&& after.table_info.columns_info == before.table_info.columns_info
            &&& after.columns_display == before.columns_display
            &&& after.table_name_display == before.table_name_display
        },
        TableInfoMessage::UpdateTableName(n) => {
            &&& after.table_name_display@ == n@
            &&& after.table_info == before.table_info
            &&& after.columns_display == before.columns_display
        },
        _ => {
            &&& columns_view(after.columns_display@) == spec_displayed_columns(
                columns_view(before.columns_display@),
                message,
            )
            &&& after.table_info == before.table_info
            &&& after.table_name_display == before.table_name_display
        },
    }
}

impl TableInfoUI {
    /// The screen is well formed: the table it edits has a name.
    pub open spec fn wf(&self) -> bool {
        self.table_info.table_name is Some
    }

    /// The screen over a table read from the database.
    pub fn new(table_info: TableInfo, tables_general_info: Vec<TableGeneralInfo>) -> (res: Self)
        requires
            table_info.table_name is Some,
        ensures
            res.wf(),
            res.table_info == table_info,
            res.tables_general_info == tables_general_info,
            res.table_name_display == table_info.table_name.unwrap(),
            columns_view(res.columns_display@) == columns_view(table_info.columns_info@),
            res.active_foreign_key_dropdown is None,
    {
        let table_name_display = match &table_info.table_name {
            Some(n) => n.clone(),
            None => String::new(),
        };
        let columns_display = duplicate_columns(&table_info.columns_info);
        TableInfoUI {
            table_info,
            tables_general_info,
            table_name_display,
            columns_display,
            active_foreign_key_dropdown: None,
        }
    }

    /// The name of the table, as last read from the database or applied.
    pub fn get_table_name(&self) -> (res: String)
        requires
            self.wf(),
        ensures
            res == self.table_info.table_name.unwrap(),
    {
        match &self.table_info.table_name {
            Some(n) => n.clone(),
            None => String::new(),
        }
    }

    /// Handles a message of the screen.
    pub fn update(&mut self, message: TableInfoMessage) -> (res: TableInfoTask)
        requires
            old(self).wf(),
        ensures
            final(self).wf(),
            spec_screen_after(*old(self), *final(self), message, res),
    {
        match message {
            TableInfoMessage::AddColumn => {
                push_default_column(&mut self.columns_display);
                let name = String::new();
                TableInfoTask::Message(
                    TableInfoMessage::AddTableChangeEvent(TableChangeEvents::AddColumn(name, DataType::TEXT)),
                )
            },
            TableInfoMessage::RemoveColumn(index) => {
                if index < self.columns_display.len() {
                    let column_name = self.columns_display[index].name.clone();
                    remove_column_at(&mut self.columns_display, index);
                    TableInfoTask::Message(
                        TableInfoMessage::AddTableChangeEvent(TableChangeEvents::RemoveColumn(column_name)),
                    )
                } else {
                    TableInfoTask::Nothing
                }
            },
            TableInfoMessage::UpdateColumnName(index, new_column_name) => {
                if index < self.columns_display.len() {
                    let original = self.columns_display[index].name.clone();
                    edit_columns(&mut self.columns_display, index, ColumnEdit::Name(new_column_name.clone()));
                    TableInfoTask::Message(
                        TableInfoMessage::AddTableChangeEvent(
                            TableChangeEvents::ChangeColumnName(original, new_column_name),
                        ),
                    )
                } else {
                    TableInfoTask::Nothing
                }
            },
            TableInfoMessage::UpdateColumnType(index, new_datatype) => {
                if index < self.columns_display.len() {
                    let name = self.columns_display[index].name.clone();
                    edit_columns(&mut self.columns_display, index, ColumnEdit::Type(new_datatype));
                    TableInfoTask::Message(
                        TableInfoMessage::AddTableChangeEvent(
                            TableChangeEvents::ChangeColumnDataType(name, new_datatype),
                        ),
                    )
                } else {
                    TableInfoTask::Nothing
                }
            },
            TableInfoMessage::UpdateTableName(new_table_name) => {
                self.table_name_display = new_table_name.clone();
                TableInfoTask::Message(
                    TableInfoMessage::AddTableChangeEvent(TableChangeEvents::ChangeTableName(new_table_name)),
                )
            },
            TableInfoMessage::SubmitUpdateTable => {
                let queries = self.table_info.update_table();
                TableInfoTask::ApplyQueries(queries)
            },
            TableInfoMessage::UpdateTableInfoUI => {
                self.columns_display = duplicate_columns(&self.table_info.columns_info);
                self.table_name_display = self.get_table_name();
                TableInfoTask::Nothing
            },
            TableInfoMessage::AddForeignKey(index, referenced_table_name, referenced_column_name) => {
                if index < self.columns_display.len() {
                    let name = self.columns_display[index].name.clone();
                    edit_columns(
                        &mut self.columns_display,
                        index,
                        ColumnEdit::SetForeignKey(referenced_table_name.clone(), referenced_column_name.clone()),
                    );
                    TableInfoTask::Message(
                        TableInfoMessage::AddTableChangeEvent(
                            TableChangeEvents::AddForeignKey(
                                ColumnForeignKey {
                                    column_name: name,
                                    referenced_table: referenced_table_name,
                                    referenced_column: referenced_column_name,
                                },
                            ),
                        ),
                    )
                } else {
                    TableInfoTask::Nothing
                }
            },
            TableInfoMessage::RemoveForeignKey(index) => {
                if index < self.columns_display.len() {
                    let name = self.columns_display[index].name.clone();
                    edit_columns(&mut self.columns_display, index, ColumnEdit::DropForeignKey);
                    TableInfoTask::Message(
                        TableInfoMessage::AddTableChangeEvent(TableChangeEvents::RemoveForeignKey(name)),
                    )
                } else {
                    TableInfoTask::Nothing
                }
            },
            TableInfoMessage::SetOrRemovePrimaryKey(index) => {
                if index < self.columns_display.len() {
                    let name = self.columns_display[index].name.clone();
                    let had_key = column_has_primary_key(&self.columns_display[index]);
                    edit_columns(&mut self.columns_display, index, ColumnEdit::TogglePrimaryKey);
                    if had_key {
                        TableInfoTask::Message(
                            TableInfoMessage::AddTableChangeEvent(TableChangeEvents::RemovePrimaryKey(name)),
                        )
                    } else {
                        TableInfoTask::Message(
                            TableInfoMessage::AddTableChangeEvent(TableChangeEvents::AddPrimaryKey(name)),
                        )
                    }
                } else {
                    TableInfoTask::Nothing
                }
            },
            TableInfoMessage::AddTableChangeEvent(table_change_event) => {
                self.table_info.add_table_change_event(table_change_event);
                TableInfoTask::ShowPendingChanges
            },
            TableInfoMessage::ToggleForeignKeyDropdown(index) => {
                if index < self.columns_display.len() {
                    let open = match &self.active_foreign_key_dropdown {
                        Some(d) => d.index == index,
                        None => false,
                    };
                    if open {
                        self.active_foreign_key_dropdown = None;
                    } else {
                        self.active_foreign_key_dropdown = Some(
                            ForeignKeyDropDownUI {
                                column: self.columns_display[index].duplicate(),
                                tables_general_info: duplicate_general_infos(&self.tables_general_info),
                                active_foreign_key_table_within_dropdown: None,
                                index,
                            },
                        );
                    }
                }
                TableInfoTask::Nothing
            },
            TableInfoMessage::ToggleForeignKeyTable(_, table_name) => {
                match &mut self.active_foreign_key_dropdown {
                    Some(d) => {
                        d.active_foreign_key_table_within_dropdown = Some(table_name);
                    },
                    None => {},
                }
                TableInfoTask::Nothing
            },
            TableInfoMessage::TableChangeEventDone => TableInfoTask::Nothing,
        }
    }
}

/// A copy of a list of columns.
pub fn duplicate_columns(cols: &Vec<Column>) -> (res: Vec<Column>)
    ensures
        columns_view(res@) == columns_view(cols@),
{
    let mut res: Vec<Column> = Vec::new();
    let mut i: usize = 0;
    while i < cols.len()
        invariant
            i <= cols@.len(),
            res@.len() == i,
            forall|j: int| 0 <= j < i ==> column_view(#[trigger] res@[j]) == column_view(cols@[j]),
        decreases cols@.len() - i,
    {
        res.push(cols[i].duplicate());
        i = i + 1;
    }
    assert(columns_view(res@) =~= columns_view(cols@));
    res
}

} // verus!
