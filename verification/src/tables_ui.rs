use vstd::prelude::*;
use crate::filter::{filter_tables, spec_listed_tables};
use crate::forms::{
    columns_view, default_column_view, duplicate_general_infos, push_default_column, same_general_info, spec_form_columns,
    spec_form_dropdown_column, spec_form_dropdown_table, spec_form_table_name,
    CreateTableFormMessage, CreateTableFormUI,
};
use crate::schemas::{TableGeneralInfo, TableIn};
use crate::sql::{create_table_query, delete_table_query, spec_create_table_query, spec_delete_table_query, views};
use crate::table_info::TableInfo;
use crate::table_info_ui::{spec_screen_after, TableInfoMessage, TableInfoTask, TableInfoUI};

verus! {

/// The messages of the screen that lists the tables.
#[derive(Debug, Clone)]
pub enum TablesMessage {
    UpdateTableFilter(String),
    ShowOrRemoveCreateTableForm,
    GetSingleTableInfo(String),
    /// The table asked for, as read from the database.
    SetSingleTableInfo(TableInfo),
    UndisplayTableInfo,
    SingleTableInfo(TableInfoMessage),
    CreateTableForm(CreateTableFormMessage),
    InitializeComponent,
    /// The tables of the database, as read from it.
    SetTables(Vec<TableGeneralInfo>),
    ComponentInitialized,
    RequestDeleteTable(String),
    ConfirmDeleteTable,
    CancelDeleteTable,
}

/// What the screen that lists the tables asks to be done after a message.
#[derive(Debug)]
pub enum TablesTask {
    Nothing,
    /// Handle this message next.
    Message(TablesMessage),
    /// Read the tables of the database, then handle `SetTables` and
    /// `ComponentInitialized`.
    LoadTables,
    /// Read the table of this name, then handle `SetSingleTableInfo`.
    LoadTableInfo(String),
    /// Run this statement, which creates the table `table_name`; read the
    /// tables again, then handle `CreateTableForm(TableCreated(table_name))`.
    CreateTable { query: String, table_name: String },
    /// Run this statement, which drops a table, then read the tables again.
    DeleteTable(String),
    /// Run these statements on the table shown, read it again into the
    /// screen's table, then handle `SingleTableInfo(UpdateTableInfoUI)`.
    ApplyQueries(Vec<String>),
    /// Show the pending changes of the table being edited on the console,
    /// as one line.
    ShowPendingChanges,
}

/// The screen that lists the tables, with the form that creates one and
/// the screen that edits the table chosen.
#[derive(Debug)]
pub struct TablesUI {
    pub table_filter: String,
    pub show_create_table_form: bool,
    pub create_table_form: CreateTableFormUI,
    pub tables_general_info: Vec<TableGeneralInfo>,
    pub single_table_info: Option<TableInfoUI>,
    pub table_to_delete: Option<String>,
}

/// What the screen asks next when the screen that edits a table asks `task`.
pub open spec fn spec_lift_task(task: TableInfoTask, lifted: TablesTask) -> bool {
    match task {
        TableInfoTask::Nothing => lifted is Nothing,
        TableInfoTask::Message(m) => lifted matches TablesTask::Message(TablesMessage::SingleTableInfo(n)) && n == m,
        TableInfoTask::ApplyQueries(q) => lifted matches TablesTask::ApplyQueries(r) && r == q,
        TableInfoTask::ShowPendingChanges => lifted is ShowPendingChanges,
    }
}

/// The form after a message, as `CreateTableFormUI::update` leaves it.
pub open spec fn spec_form_after(before: CreateTableFormUI, after: CreateTableFormUI, message: CreateTableFormMessage) -> bool {
    &&& columns_view(after.create_table_input.columns@) == spec_form_columns(
        columns_view(before.create_table_input.columns@),
        message,
    )
    &&& after.create_table_input.table_name@ == spec_form_table_name(
        before.create_table_input.table_name@,
        message,
    )
    &&& after.active_foreign_key_dropdown_column == spec_form_dropdown_column(
        before.active_foreign_key_dropdown_column,
        message,
    )
    &&& after.active_foreign_key_table_within_dropdown == spec_form_dropdown_table(
        before.active_foreign_key_table_within_dropdown,
        message,
    )
    &&& after.tables_general_info == before.tables_general_info
}

/// The parts of the screen that `keep` marks are as they were: in order, the
/// filter, the flag that shows the form, the form, the list of tables, the
/// table being edited and the table to delete.
pub open spec fn keeps(before: TablesUI, after: TablesUI, keep: (bool, bool, bool, bool, bool, bool)) -> bool {
    &&& keep.0 ==> after.table_filter == before.table_filter
    &&& keep.1 ==> after.show_create_table_form == before.show_create_table_form
    &&& keep.2 ==> after.create_table_form == before.create_table_form
    &&& keep.3 ==> after.tables_general_info == before.tables_general_info
    &&& keep.4 ==> after.single_table_info == before.single_table_info
    &&& keep.5 ==> after.table_to_delete == before.table_to_delete
}

/// The screen `after` a message, and the task it asks for, given the screen
/// `before`.
pub open spec fn spec_tables_after(before: TablesUI, after: TablesUI, message: TablesMessage, task: TablesTask) -> bool {
    match message {
        TablesMessage::UpdateTableFilter(f) => {
            &&& after.table_filter == f
            &&& keeps(before, after, (false, true, true, true, true, true))
            &&& task is Nothing
        },
        TablesMessage::ShowOrRemoveCreateTableForm => {
            &&& after.show_create_table_form == !before.show_create_table_form
            &&& columns_view(after.create_table_form.create_table_input.columns@) == (if before.create_table_form.create_table_input.columns@.len() == 0 {
                seq![default_column_view()]
            } else {
                columns_view(before.create_table_form.create_table_input.columns@)
            })
            &&& after.create_table_form.create_table_input.table_name
                == before.create_table_form.create_table_input.table_name
            &&& after.create_table_form.tables_general_info == before.create_table_form.tables_general_info
            &&& after.create_table_form.active_foreign_key_dropdown_column
                == before.create_table_form.active_foreign_key_dropdown_column
            &&& after.create_table_form.active_foreign_key_table_within_dropdown
                == before.create_table_form.active_foreign_key_table_within_dropdown
            &&& keeps(before, after, (true, false, false, true, true, true))
            &&& task is Nothing
        },
        TablesMessage::GetSingleTableInfo(n) => {
            &&& after == before
            &&& task matches TablesTask::LoadTableInfo(m) && m == n
        },
        TablesMessage::SetSingleTableInfo(t) => {
            &&& after.single_table_info matches Some(u) && u.table_info == t
                && u.table_name_display == t.table_name.unwrap()
                && columns_view(u.columns_display@) == columns_view(t.columns_info@)
                && u.active_foreign_key_dropdown is None
                && u.tables_general_info@.len() == before.tables_general_info@.len()
                && forall|i: int|
                0 <= i < u.tables_general_info@.len() ==> same_general_info(
                    #[trigger] u.tables_general_info@[i],
                    before.tables_general_info@[i],
                )
            &&& keeps(before, after, (true, true, true, true, false, true))
            &&& task is Nothing
        },
        TablesMessage::UndisplayTableInfo => {
            &&& after.single_table_info is None
            &&& keeps(before, after, (true, true, true, true, false, true))
            &&& task is Nothing
        },
        TablesMessage::SingleTableInfo(m) => match before.single_table_info {
            Some(u) => {
                &&& after.single_table_info matches Some(v) && exists|t: TableInfoTask|
                    spec_lift_task(t, task) && spec_screen_after(u, v, m, t)
                &&& keeps(before, after, (true, true, true, true, false, true))
            },
            None => {
                &&& after == before
                &&& task is Nothing
            },
        },
        TablesMessage::CreateTableForm(m) => match m {
            CreateTableFormMessage::SubmitCreateTable(t) => {
                &&& task matches TablesTask::CreateTable { query, table_name } && query@
                    == spec_create_table_query(t.table_name@, t.columns@) && table_name == t.table_name
                &&& after == before
            },
            CreateTableFormMessage::TableCreated(n) => {
                &&& spec_form_after(before.create_table_form, after.create_table_form, m)
                &&& !after.show_create_table_form
                &&& keeps(before, after, (true, false, false, true, true, true))
                &&& task matches TablesTask::Message(TablesMessage::GetSingleTableInfo(k)) && k == n
            },
            _ => {
                &&& spec_form_after(before.create_table_form, after.create_table_form, m)
                &&& keeps(before, after, (true, true, false, true, true, true))
                &&& task is Nothing
            },
        },
        TablesMessage::InitializeComponent => {
            &&& after == before
            &&& task is LoadTables
        },
        TablesMessage::SetTables(t) => {
            &&& after.tables_general_info == t
            &&& after.create_table_form.tables_general_info matches Some(g) && g@.len() == t@.len()
                && forall|i: int| 0 <= i < t@.len() ==> same_general_info(#[trigger] g@[i], t@[i])
            &&& after.create_table_form.create_table_input == before.create_table_form.create_table_input
            &&& after.create_table_form.active_foreign_key_table_within_dropdown
                == before.create_table_form.active_foreign_key_table_within_dropdown
            &&& after.create_table_form.active_foreign_key_dropdown_column
                == before.create_table_form.active_foreign_key_dropdown_column
            &&& keeps(before, after, (true, true, false, false, true, true))
            &&& task is Nothing
        },
        TablesMessage::ComponentInitialized => {
            &&& after == before
            &&& task is Nothing
        },
        TablesMessage::RequestDeleteTable(n) => {
            &&& after.table_to_delete == Some(n)
            &&& keeps(before, after, (true, true, true, true, true, false))
            &&& task is Nothing
        },
        TablesMessage::ConfirmDeleteTable => {
            &&& after.table_to_delete is None
            &&& keeps(before, after, (true, true, true, true, true, false))
            &&& match before.table_to_delete {
                Some(n) => task matches TablesTask::DeleteTable(q) && q@ == spec_delete_table_query(n@),
                None => task is Nothing,
            }
        },
        TablesMessage::CancelDeleteTable => {
            &&& after.table_to_delete is None
            &&& keeps(before, after, (true, true, true, true, true, false))
            &&& task is Nothing
        },
    }
}

impl TablesUI {
    /// The screen is well formed: the table being edited, if any, has a name.
    pub open spec fn wf(&self) -> bool {
        self.single_table_info matches Some(t) ==> t.wf()
    }

    /// The screen before the tables are read.
    pub fn new() -> (res: Self)
        ensures
            res.wf(),
            res.table_filter@.len() == 0,
            !res.show_create_table_form,
            res.tables_general_info@.len() == 0,
            res.single_table_info is None,
            res.table_to_delete is None,
            res.create_table_form.create_table_input.columns@.len() == 0,
            res.create_table_form.create_table_input.table_name@.len() == 0,
            res.create_table_form.tables_general_info is None,
            res.create_table_form.active_foreign_key_dropdown_column is None,
            res.create_table_form.active_foreign_key_table_within_dropdown is None,
    {
        TablesUI {
            table_filter: String::new(),
            show_create_table_form: false,
            create_table_form: CreateTableFormUI::new(None),
            tables_general_info: Vec::new(),
            single_table_info: None,
            table_to_delete: None,
        }
    }

    /// The names of the tables listed under the filter.
    pub fn listed_tables(&self) -> (res: Vec<String>)
        ensures
            views(res@) == spec_listed_tables(self.tables_general_info@, self.table_filter@),
    {
        filter_tables(&self.tables_general_info, self.table_filter.as_str())
    }

    /// Handles a message of the screen.
    pub fn update(&mut self, message: TablesMessage) -> (res: TablesTask)
        requires
            old(self).wf(),
            message matches TablesMessage::SetSingleTableInfo(t) ==> t.table_name is Some,
        ensures
            final(self).wf(),
            spec_tables_after(*old(self), *final(self), message, res),
    {
        match message {
            TablesMessage::UpdateTableFilter(input) => {
                self.table_filter = input;
                TablesTask::Nothing
            },
            TablesMessage::ShowOrRemoveCreateTableForm => {
                self.show_create_table_form = !self.show_create_table_form;
                if self.create_table_form.create_table_input.columns.len() == 0 {
                    push_default_column(&mut self.create_table_form.create_table_input.columns);
                    assert(columns_view(self.create_table_form.create_table_input.columns@)
                        =~= seq![default_column_view()]);
                }
                TablesTask::Nothing
            },
            TablesMessage::GetSingleTableInfo(table_name) => TablesTask::LoadTableInfo(table_name),
            TablesMessage::SetSingleTableInfo(table_info) => {
                let infos = duplicate_general_infos(&self.tables_general_info);
                self.single_table_info = Some(TableInfoUI::new(table_info, infos));
                TablesTask::Nothing
            },
            TablesMessage::UndisplayTableInfo => {
                self.single_table_info = None;
                TablesTask::Nothing
            },
            TablesMessage::SingleTableInfo(table_info_message) => {
                match &mut self.single_table_info {
                    Some(table_info) => {
                        let task = table_info.update(table_info_message);
                        let ghost t = task;
                        let lifted = match task {
                            TableInfoTask::Nothing => TablesTask::Nothing,
                            TableInfoTask::Message(m) => TablesTask::Message(TablesMessage::SingleTableInfo(m)),
                            TableInfoTask::ApplyQueries(q) => TablesTask::ApplyQueries(q),
                            TableInfoTask::ShowPendingChanges => TablesTask::ShowPendingChanges,
                        };
                        assert(spec_lift_task(t, lifted));
                        lifted
                    },
                    None => TablesTask::Nothing,
                }
            },
            TablesMessage::CreateTableForm(form_message) => {
                match form_message {
                    CreateTableFormMessage::SubmitCreateTable(table_in) => {
                        let query = create_table_query(&table_in);
                        TablesTask::CreateTable { query, table_name: table_in.table_name }
                    },
                    CreateTableFormMessage::TableCreated(table_name) => {
                        self.create_table_form.update(CreateTableFormMessage::TableCreated(table_name.clone()));
                        self.show_create_table_form = false;
                        TablesTask::Message(TablesMessage::GetSingleTableInfo(table_name))
                    },
                    other => {
                        self.create_table_form.update(other);
                        TablesTask::Nothing
                    },
                }
            },
            TablesMessage::InitializeComponent => TablesTask::LoadTables,
            TablesMessage::SetTables(tables) => {
                self.create_table_form.tables_general_info = Some(duplicate_general_infos(&tables));
                self.tables_general_info = tables;
                TablesTask::Nothing
            },
            TablesMessage::ComponentInitialized => TablesTask::Nothing,
            TablesMessage::RequestDeleteTable(table_name) => {
                self.table_to_delete = Some(table_name);
                TablesTask::Nothing
            },
            TablesMessage::ConfirmDeleteTable => {
                let task = match &self.table_to_delete {
                    Some(n) => TablesTask::DeleteTable(delete_table_query(n.as_str())),
                    None => TablesTask::Nothing,
                };
                self.table_to_delete = None;
                task
            },
            TablesMessage::CancelDeleteTable => {
                self.table_to_delete = None;
                TablesTask::Nothing
            },
        }
    }
}

} // verus!
