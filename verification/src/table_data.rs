use vstd::prelude::*;
use crate::forms::duplicate_general_info;
use crate::row_changes::{
    add_row_change, row_change_queries, row_conditions, spec_add_row_change, spec_conditions_of_row,
    spec_row_change_queries, ColumnValue, RowColumnValue, TableDataChangeEvents,
};
use crate::schemas::{DataType, TableGeneralInfo, TableInsertedData};
use crate::sql::views;
use crate::strings::{duplicate_strings, str_eq};

verus! {

/// `i` is the first table named `name`.
pub open spec fn is_first_table(tables: Seq<TableGeneralInfo>, name: Seq<char>, i: int) -> bool {
    &&& 0 <= i < tables.len()
    &&& tables[i].table_name@ == name
    &&& forall|j: int| 0 <= j < i ==> (#[trigger] tables[j]).table_name@ != name
}

/// The position of the first table named `name`, if any.
pub open spec fn spec_find_table(tables: Seq<TableGeneralInfo>, name: Seq<char>) -> Option<int> {
    if exists|i: int| is_first_table(tables, name, i) {
        Some(choose|i: int| is_first_table(tables, name, i))
    } else {
        None
    }
}

/// The position of the first table named `name`.
pub fn find_table(tables: &Vec<TableGeneralInfo>, name: &str) -> (res: Option<usize>)
    ensures
        match res {
            Some(i) => spec_find_table(tables@, name@) == Some(i as int),
            None => spec_find_table(tables@, name@) is None,
        },
{
    let mut i: usize = 0;
    while i < tables.len()
        invariant
            i <= tables@.len(),
            forall|j: int| 0 <= j < i ==> (#[trigger] tables@[j]).table_name@ != name@,
        decreases tables@.len() - i,
    {
        if str_eq(tables[i].table_name.as_str(), name) {
            proof {
                let k = choose|k: int| is_first_table(tables@, name@, k);
                assert(is_first_table(tables@, name@, i as int));
                if k < i {
                    assert(tables@[k].table_name@ != name@);
                } else if i < k {
                    assert(tables@[i as int].table_name@ != name@);
                }
            }
            return Some(i);
        }
        i = i + 1;
    }
    None
}

/// The cells of rows, as text.
pub open spec fn rows_view(rows: Seq<Vec<String>>) -> Seq<Seq<Seq<char>>> {
    rows.map_values(|r: Vec<String>| views(r@))
}

/// Whether two snapshots of the rows of a table read the same.
pub open spec fn same_inserted_data(a: TableInsertedData, b: TableInsertedData) -> bool {
    &&& a.table_name@ == b.table_name@
    &&& views(a.column_names@) == views(b.column_names@)
    &&& a.data_types@ == b.data_types@
    &&& rows_view(a.rows@) == rows_view(b.rows@)
}

/// A copy of the rows of a table.
pub fn duplicate_rows(rows: &Vec<Vec<String>>) -> (res: Vec<Vec<String>>)
    ensures
        rows_view(res@) == rows_view(rows@),
{
    let mut res: Vec<Vec<String>> = Vec::new();
    let mut i: usize = 0;
    while i < rows.len()
        invariant
            i <= rows@.len(),
            res@.len() == i,
            forall|j: int| 0 <= j < i ==> views((#[trigger] res@[j])@) == views(rows@[j]@),
        decreases rows@.len() - i,
    {
        let r = duplicate_strings(&rows[i]);
        res.push(r);
        i = i + 1;
    }
    assert(rows_view(res@) =~= rows_view(rows@));
    res
}

/// A copy of a snapshot of the rows of a table.
pub fn duplicate_inserted_data(d: &TableInsertedData) -> (res: TableInsertedData)
    ensures
        same_inserted_data(res, *d),
{
    TableInsertedData {
        table_name: d.table_name.clone(),
        column_names: duplicate_strings(&d.column_names),
        data_types: duplicate_types(&d.data_types),
        rows: duplicate_rows(&d.rows),
    }
}

/// A copy of a list of types.
pub fn duplicate_types(v: &Vec<DataType>) -> (res: Vec<DataType>)
    ensures
        res@ == v@,
{
    let mut res: Vec<DataType> = Vec::new();
    let mut i: usize = 0;
    while i < v.len()
        invariant
            i <= v@.len(),
            res@ == v@.take(i as int),
        decreases v@.len() - i,
    {
        res.push(v[i]);
        i = i + 1;
        assert(res@ =~= v@.take(i as int));
    }
    assert(v@.take(v@.len() as int) =~= v@);
    res
}

/// The rows of the table being viewed, with what is needed to show them,
/// and the changes to its rows not yet saved.
#[derive(Debug)]
pub struct TableData {
    pub tables_general_info: Vec<TableGeneralInfo>,
    pub table_inserted_data: Option<TableInsertedData>,
    pub table_data_change_events: Vec<TableDataChangeEvents>,
    pub primary_key_column_names: Vec<String>,
}

impl TableData {
    /// No table viewed yet, over the descriptions of the tables.
    pub fn new(tables_general_info: Vec<TableGeneralInfo>) -> (res: Self)
        ensures
            res.tables_general_info == tables_general_info,
            res.table_inserted_data is None,
            res.table_data_change_events@.len() == 0,
            res.primary_key_column_names@.len() == 0,
    {
        TableData {
            tables_general_info,
            table_inserted_data: None,
            table_data_change_events: Vec::new(),
            primary_key_column_names: Vec::new(),
        }
    }

    /// Records a change to the rows, merged into the pending ones as
    /// `spec_add_row_change` says.
    pub fn add_table_data_change_event(&mut self, table_data_change_event: TableDataChangeEvents)
        ensures
            final(self).table_data_change_events@ == spec_add_row_change(
                old(self).table_data_change_events@,
                table_data_change_event,
            ),
            final(self).tables_general_info == old(self).tables_general_info,
            final(self).table_inserted_data == old(self).table_inserted_data,
            final(self).primary_key_column_names == old(self).primary_key_column_names,
    {
        add_row_change(&mut self.table_data_change_events, table_data_change_event);
    }

    /// Shows the rows read from the table `table_name`, each listing its
    /// cells in the order of the table's columns, and forgets the unsaved
    /// changes; a table that is not among the known tables leaves the view
    /// as it was.
    pub fn set_table_data(
        &mut self,
        table_name: String,
        rows: Vec<Vec<String>>,
        primary_key_column_names: Vec<String>,
    )
        ensures
            final(self).tables_general_info == old(self).tables_general_info,
            match spec_find_table(old(self).tables_general_info@, table_name@) {
                Some(i) => {
                    let info = old(self).tables_general_info@[i];
                    &&& final(self).table_inserted_data matches Some(d) && d.table_name == table_name
                        && d.column_names@ == info.column_names@ && d.data_types@
                        == info.data_types@ && d.rows == rows
                    &&& final(self).primary_key_column_names == primary_key_column_names
                    &&& final(self).table_data_change_events@.len() == 0
                },
                None => {
                    &&& final(self).table_inserted_data == old(self).table_inserted_data
                    &&& final(self).primary_key_column_names == old(self).primary_key_column_names
                    &&& final(self).table_data_change_events == old(self).table_data_change_events
                },
            },
    {
        match find_table(&self.tables_general_info, table_name.as_str()) {
            Some(i) => {
                let info = duplicate_general_info(&self.tables_general_info[i]);
                self.table_inserted_data = Some(
                    TableInsertedData {
                        table_name,
                        column_names: info.column_names,
                        data_types: info.data_types,
                        rows,
                    },
                );
                self.primary_key_column_names = primary_key_column_names;
                self.table_data_change_events = Vec::new();
            },
            None => {},
        }
    }
}

/// Reads which columns a row inserted into the selected table has.
#[derive(Debug)]
pub struct TableDataInserter {
    pub table_name: Option<String>,
    pub tables_general_info: Vec<TableGeneralInfo>,
}

impl TableDataInserter {
    /// An inserter for the table `table_name`, if one is selected.
    pub fn new(table_name: Option<String>, tables_general_info: Vec<TableGeneralInfo>) -> (res: Self)
        ensures
            res.table_name == table_name,
            res.tables_general_info == tables_general_info,
    {
        TableDataInserter { table_name, tables_general_info }
    }

    /// The column names of the selected table, when one is selected and known.
    pub fn get_column_names(&self) -> (res: Option<Vec<String>>)
        ensures
            match self.table_name {
                Some(n) => match spec_find_table(self.tables_general_info@, n@) {
                    Some(i) => res matches Some(names) && names@
                        == self.tables_general_info@[i].column_names@,
                    None => res is None,
                },
                None => res is None,
            },
    {
        match &self.table_name {
            Some(n) => match find_table(&self.tables_general_info, n.as_str()) {
                Some(i) => Some(duplicate_strings(&self.tables_general_info[i].column_names)),
                None => None,
            },
            None => None,
        }
    }
}

// ---------------------------------------------------------------------------
// The screen that shows the rows of a table
// ---------------------------------------------------------------------------

/// The messages of the screen that shows the rows of a table.
#[derive(Debug, Clone, PartialEq)]
pub enum TableDataMessage {
    UpdateTableData,
    GetTableData(String),
    ResetTableData,
    SetTableData,
    UpdateCell(usize, usize, String),
    DeleteRow(usize),
    AddRow,
}

/// What the screen that shows rows asks to be done after a message.
#[derive(Debug, Clone, PartialEq)]
pub enum TableDataTask {
    Nothing,
    /// Handle this message next.
    Message(TableDataMessage),
    /// Read the rows of this table into the screen's table data, then
    /// handle `SetTableData`.
    LoadTableData(String),
    /// Run these statements, which save the unsaved changes of the rows, in
    /// one transaction; then read the rows of `table_name` into the screen's
    /// table data and handle `SetTableData`.
    SaveTableData { table_name: String, queries: Vec<String> },
    /// Show the unsaved changes of the rows on the console, as one line.
    ShowPendingChanges,
}

/// The unsaved changes of the rows after a message, given the screen
/// `before` it: editing a cell, deleting a row or adding one records the
/// change, the row found by the values that identify it as shown before the
/// change.
pub open spec fn spec_row_log_after(
    before: TableDataUI,
    log: Seq<TableDataChangeEvents>,
    message: TableDataMessage,
) -> bool {
    let old_log = before.table_data.table_data_change_events@;
    let keys = before.table_data.primary_key_column_names@;
    match message {
        TableDataMessage::UpdateCell(r, c, v) => match before.table_inserted_data {
            Some(d) => if r < d.rows@.len() && c < d.rows@[r as int]@.len() {
                exists|conds: Vec<ColumnValue>|
                    #![trigger conds@]
                    conds@ == spec_conditions_of_row(d.column_names@, keys, d.rows@[r as int]@) && log
                        == spec_add_row_change(
                        old_log,
                        TableDataChangeEvents::ModifyRowColumnValue(
                            (RowColumnValue { conditions: conds, column_name: d.column_names@[c as int], value: v }),
                        ),
                    )
            } else {
                log == old_log
            },
            None => log == old_log,
        },
        TableDataMessage::DeleteRow(r) => match before.table_inserted_data {
            Some(d) => exists|conds: Vec<ColumnValue>|
                #![trigger conds@]
                conds@ == spec_conditions_of_row(d.column_names@, keys, d.rows@[r as int]@) && log
                    == spec_add_row_change(old_log, TableDataChangeEvents::DeleteRow(conds)),
            None => log == old_log,
        },
        TableDataMessage::AddRow => match before.table_inserted_data {
            Some(d) => exists|values: Vec<String>|
                #![trigger values@]
                views(values@) == Seq::new(d.column_names@.len(), |i: int| Seq::<char>::empty()) && log
                    == spec_add_row_change(old_log, TableDataChangeEvents::InsertRow(values)),
            None => log == old_log,
        },
        _ => log == old_log,
    }
}

/// The screen that shows the rows of a table.
#[derive(Debug)]
pub struct TableDataUI {
    pub table_data: TableData,
    pub table_inserted_data: Option<TableInsertedData>,
    pub selected_table_name: Option<String>,
}

impl TableDataUI {
    /// The screen with no table selected.
    pub fn new(table_data: TableData) -> (res: Self)
        ensures
            res.table_data == table_data,
            res.table_inserted_data is None,
            res.selected_table_name is None,
    {
        TableDataUI { table_data, table_inserted_data: None, selected_table_name: None }
    }

    /// The name of the table shown, if any.
    pub fn get_table_name(&self) -> (res: Option<String>)
        ensures
            match self.table_inserted_data {
                Some(d) => res == Some(d.table_name),
                None => res is None,
            },
    {
        match &self.table_inserted_data {
            Some(d) => Some(d.table_name.clone()),
            None => None,
        }
    }

    /// Handles a message of the screen: rows are edited on screen, each
    /// edit recorded as an unsaved change, and saved on `UpdateTableData`.
    pub fn update(&mut self, message: TableDataMessage) -> (res: TableDataTask)
        requires
            message matches TableDataMessage::DeleteRow(r) ==> (old(self).table_inserted_data matches Some(
                d,
            ) ==> r < d.rows@.len()),
            message matches TableDataMessage::UpdateCell(r, c, _) ==> (old(self).table_inserted_data matches Some(
                d,
            ) ==> (r < d.rows@.len() && c < d.rows@[r as int]@.len() ==> c < d.column_names@.len())),
        ensures
            final(self).table_data.tables_general_info == old(self).table_data.tables_general_info,
            final(self).table_data.table_inserted_data == old(self).table_data.table_inserted_data,
            final(self).table_data.primary_key_column_names == old(self).table_data.primary_key_column_names,
            spec_row_log_after(*old(self), final(self).table_data.table_data_change_events@, message),
            match message {
                TableDataMessage::GetTableData(n) => {
                    &&& res == TableDataTask::LoadTableData(n)
                    &&& final(self).selected_table_name matches Some(s) && s@ == n@
                    &&& final(self).table_inserted_data == old(self).table_inserted_data
                },
                TableDataMessage::ResetTableData => {
                    &&& match old(self).selected_table_name {
                        Some(s) => res matches TableDataTask::Message(TableDataMessage::GetTableData(n))
                            && n@ == s@,
                        None => res == TableDataTask::Nothing,
                    }
                    &&& final(self).selected_table_name == old(self).selected_table_name
                    &&& final(self).table_inserted_data == old(self).table_inserted_data
                },
                TableDataMessage::SetTableData => {
                    &&& res == TableDataTask::Nothing
                    &&& final(self).selected_table_name == old(self).selected_table_name
                    &&& match old(self).table_data.table_inserted_data {
                        Some(d) => final(self).table_inserted_data matches Some(e) && same_inserted_data(e, d),
                        None => final(self).table_inserted_data is None,
                    }
                },
                TableDataMessage::UpdateCell(r, c, v) => {
                    &&& res == if old(self).table_inserted_data matches Some(d) && r < d.rows@.len() && c
                        < d.rows@[r as int]@.len() {
                        TableDataTask::ShowPendingChanges
                    } else {
                        TableDataTask::Nothing
                    }
                    &&& final(self).selected_table_name == old(self).selected_table_name
                    &&& match old(self).table_inserted_data {
                        Some(d) => final(self).table_inserted_data matches Some(e)
                            && e.table_name == d.table_name && e.column_names == d.column_names
                            && e.data_types == d.data_types && rows_view(e.rows@) == (if r
                            < d.rows@.len() && c < d.rows@[r as int]@.len() {
                            rows_view(d.rows@).update(
                                r as int,
                                rows_view(d.rows@)[r as int].update(c as int, v@),
                            )
                        } else {
                            rows_view(d.rows@)
                        }),
                        None => final(self).table_inserted_data is None,
                    }
                },
                TableDataMessage::DeleteRow(r) => {
                    &&& res == if old(self).table_inserted_data is Some {
                        TableDataTask::ShowPendingChanges
                    } else {
                        TableDataTask::Nothing
                    }
                    &&& final(self).selected_table_name == old(self).selected_table_name
                    &&& match old(self).table_inserted_data {
                        Some(d) => final(self).table_inserted_data matches Some(e)
                            && e.table_name == d.table_name && e.column_names == d.column_names
                            && e.data_types == d.data_types && rows_view(e.rows@) == rows_view(
                            d.rows@,
                        ).remove(r as int),
                        None => final(self).table_inserted_data is None,
                    }
                },
                TableDataMessage::AddRow => {
                    &&& res == if old(self).table_inserted_data is Some {
                        TableDataTask::ShowPendingChanges
                    } else {
                        TableDataTask::Nothing
                    }
                    &&& final(self).selected_table_name == old(self).selected_table_name
                    &&& match old(self).table_inserted_data {
                        Some(d) => final(self).table_inserted_data matches Some(e)
                            && e.table_name == d.table_name && e.column_names == d.column_names
                            && e.data_types == d.data_types && rows_view(e.rows@) == rows_view(
                            d.rows@,
                        ).push(Seq::new(d.column_names@.len(), |i: int| Seq::<char>::empty())),
                        None => final(self).table_inserted_data is None,
                    }
                },
                TableDataMessage::UpdateTableData => {
                    &&& match old(self).table_data.table_inserted_data {
                        Some(d) => res matches TableDataTask::SaveTableData { table_name, queries }
                            && table_name == d.table_name && views(queries@) == spec_row_change_queries(
                            d.table_name@,
                            views(d.column_names@),
                            old(self).table_data.table_data_change_events@,
                        ),
                        None => res == TableDataTask::Message(TableDataMessage::SetTableData),
                    }
                    &&& final(self).selected_table_name == old(self).selected_table_name
                    &&& final(self).table_inserted_data == old(self).table_inserted_data
                },
            },
    {
        match message {
            TableDataMessage::UpdateTableData => {
                match &self.table_data.table_inserted_data {
                    Some(d) => {
                        let queries = row_change_queries(
                            d.table_name.as_str(),
                            &d.column_names,
                            &self.table_data.table_data_change_events,
                        );
                        TableDataTask::SaveTableData { table_name: d.table_name.clone(), queries }
                    },
                    None => TableDataTask::Message(TableDataMessage::SetTableData),
                }
            },
            TableDataMessage::GetTableData(table_name) => {
                self.selected_table_name = Some(table_name.clone());
                TableDataTask::LoadTableData(table_name)
            },
            TableDataMessage::ResetTableData => {
                match &self.selected_table_name {
                    Some(n) => TableDataTask::Message(TableDataMessage::GetTableData(n.clone())),
                    None => TableDataTask::Nothing,
                }
            },
            TableDataMessage::SetTableData => {
                self.table_inserted_data = match &self.table_data.table_inserted_data {
                    Some(d) => Some(duplicate_inserted_data(d)),
                    None => None,
                };
                TableDataTask::Nothing
            },
            TableDataMessage::UpdateCell(row_index, col_index, new_value) => {
                let event = match &self.table_inserted_data {
                    Some(d) => {
                        if row_index < d.rows.len() && col_index < d.rows[row_index].len() {
                            let conditions = row_conditions(
                                &d.column_names,
                                &self.table_data.primary_key_column_names,
                                &d.rows[row_index],
                            );
                            Some(
                                TableDataChangeEvents::ModifyRowColumnValue(
                                    RowColumnValue {
                                        conditions,
                                        column_name: d.column_names[col_index].clone(),
                                        value: new_value.clone(),
                                    },
                                ),
                            )
                        } else {
                            None
                        }
                    },
                    None => None,
                };
                let recorded = event.is_some();
                match event {
                    Some(e) => self.table_data.add_table_data_change_event(e),
                    None => {},
                }
                match &mut self.table_inserted_data {
                    Some(d) => {
                        if row_index < d.rows.len() {
                            let ghost rows0 = d.rows@;
                            let mut row = d.rows.remove(row_index);
                            if col_index < row.len() {
                                let ghost row0 = row@;
                                row.remove(col_index);
                                row.insert(col_index, new_value);
                                assert(views(row@) =~= views(row0).update(col_index as int, row@[col_index as int]@));
                            }
                            d.rows.insert(row_index, row);
                            assert(d.rows@ =~= rows0.update(row_index as int, row));
                            assert(rows_view(d.rows@) =~= rows_view(rows0).update(row_index as int, views(row@)));
                        }
                    },
                    None => {},
                }
                if recorded {
                    TableDataTask::ShowPendingChanges
                } else {
                    TableDataTask::Nothing
                }
            },
            TableDataMessage::DeleteRow(row_index) => {
                let event = match &self.table_inserted_data {
                    Some(d) => Some(
                        TableDataChangeEvents::DeleteRow(
                            row_conditions(&d.column_names, &self.table_data.primary_key_column_names, &d.rows[row_index]),
                        ),
                    ),
                    None => None,
                };
                let recorded = event.is_some();
                match event {
                    Some(e) => self.table_data.add_table_data_change_event(e),
                    None => {},
                }
                match &mut self.table_inserted_data {
                    Some(d) => {
                        let ghost rows0 = d.rows@;
                        d.rows.remove(row_index);
                        assert(rows_view(d.rows@) =~= rows_view(rows0).remove(row_index as int));
                    },
                    None => {},
                }
                if recorded {
                    TableDataTask::ShowPendingChanges
                } else {
                    TableDataTask::Nothing
                }
            },
            TableDataMessage::AddRow => {
                match &mut self.table_inserted_data {
                    Some(d) => {
                        let mut values: Vec<String> = Vec::new();
                        let mut inserted: Vec<String> = Vec::new();
                        let mut k: usize = 0;
                        while k < d.column_names.len()
                            invariant
                                k <= d.column_names@.len(),
                                values@.len() == k,
                                inserted@.len() == k,
                                forall|j: int| 0 <= j < k ==> (#[trigger] values@[j])@ == Seq::<char>::empty(),
                                forall|j: int| 0 <= j < k ==> (#[trigger] inserted@[j])@ == Seq::<char>::empty(),
                            decreases d.column_names@.len() - k,
                        {
                            values.push(String::new());
                            inserted.push(String::new());
                            k = k + 1;
                        }
                        assert(views(inserted@) =~= Seq::new(d.column_names@.len(), |i: int| Seq::<char>::empty()));
                        self.table_data.add_table_data_change_event(TableDataChangeEvents::InsertRow(inserted));
                        let ghost rows0 = d.rows@;
                        d.rows.push(values);
                        assert(views(values@) =~= Seq::new(d.column_names@.len(), |i: int| Seq::<char>::empty()));
                        assert(rows_view(d.rows@) =~= rows_view(rows0).push(views(values@)));
                        TableDataTask::ShowPendingChanges
                    },
                    None => TableDataTask::Nothing,
                }
            },
        }
    }
}

} // verus!
