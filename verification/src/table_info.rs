use vstd::prelude::*;
use crate::events::{
    duplicate_events, find_event, first_index, EventKind,
};
use crate::schemas::{
    is_readable_column_info, spec_info_constraints, spec_information_schema_name, Column,
    ColumnForeignKey, ColumnsInfo, Constraint, DataType, TableChangeEvents,
};
use crate::components::Console;
use crate::sql::{alter_table_queries, spec_alter_table_queries, views};
use crate::strings::owned;
use crate::strings::str_eq;

verus! {

// ---------------------------------------------------------------------------
// Columns of the table as it stands in the database
// ---------------------------------------------------------------------------

/// `i` is the first column named `name`.
pub open spec fn is_first_column(columns: Seq<Column>, name: Seq<char>, i: int) -> bool {
    &&& 0 <= i < columns.len()
    &&& columns[i].name@ == name
    &&& forall|j: int| 0 <= j < i ==> (#[trigger] columns[j]).name@ != name
}

/// The type of the first column named `name`, if there is one.
pub open spec fn spec_column_datatype(columns: Seq<Column>, name: Seq<char>) -> Option<DataType> {
    if exists|i: int| is_first_column(columns, name, i) {
        Some(columns[choose|i: int| is_first_column(columns, name, i)].datatype)
    } else {
        None
    }
}

/// The type of the first column named `name`.
fn find_column_datatype(columns: &Vec<Column>, name: &str) -> (res: Option<DataType>)
    ensures
        res == spec_column_datatype(columns@, name@),
{
    let mut i: usize = 0;
    while i < columns.len()
        invariant
            i <= columns@.len(),
            forall|j: int| 0 <= j < i ==> (#[trigger] columns@[j]).name@ != name@,
        decreases columns@.len() - i,
    {
        if str_eq(columns[i].name.as_str(), name) {
            proof {
                let k = choose|k: int| is_first_column(columns@, name@, k);
                assert(is_first_column(columns@, name@, i as int));
                if k < i {
                    assert(columns@[k].name@ != name@);
                } else if i < k {
                    assert(columns@[i as int].name@ != name@);
                }
            }
            return Some(columns[i].datatype);
        }
        i = i + 1;
    }
    None
}

/// Whether a column carries a primary key constraint.
pub open spec fn has_primary_key(c: Column) -> bool {
    exists|j: int| 0 <= j < c.constraints@.len() && c.constraints@[j] is PrimaryKey
}

/// The names of the columns that carry a primary key, in column order.
pub open spec fn spec_primary_key_column_names(columns: Seq<Column>) -> Seq<String>
    decreases columns.len(),
{
    if columns.len() == 0 {
        Seq::empty()
    } else {
        let rest = spec_primary_key_column_names(columns.drop_last());
        if has_primary_key(columns.last()) {
            rest.push(columns.last().name)
        } else {
            rest
        }
    }
}

/// Whether a column carries a primary key constraint.
pub fn column_has_primary_key(c: &Column) -> (res: bool)
    ensures
        res == has_primary_key(*c),
{
    let mut j: usize = 0;
    while j < c.constraints.len()
        invariant
            j <= c.constraints@.len(),
            forall|k: int| 0 <= k < j ==> !(c.constraints@[k] is PrimaryKey),
        decreases c.constraints@.len() - j,
    {
        if let Constraint::PrimaryKey = &c.constraints[j] {
            return true;
        }
        j = j + 1;
    }
    false
}

// ---------------------------------------------------------------------------
// How each change is merged into the log of pending changes
// ---------------------------------------------------------------------------

/// `events` without its first event of kind `kind` about `name`, if it has one.
pub open spec fn remove_first(events: Seq<TableChangeEvents>, kind: EventKind, name: Seq<char>) -> Seq<TableChangeEvents> {
    match first_index(events, kind, name) {
        Some(i) => events.remove(i),
        None => events,
    }
}

/// Renaming the table: a pending rename is replaced, or dropped when the
/// table gets back its current name.
pub open spec fn spec_change_table_name(
    events: Seq<TableChangeEvents>,
    current: Option<String>,
    table_name: String,
) -> Seq<TableChangeEvents> {
    match first_index(events, EventKind::ChangeTableName, Seq::empty()) {
        Some(i) => if current.unwrap()@ == table_name@ {
            events.remove(i)
        } else {
            events.remove(i).push(TableChangeEvents::ChangeTableName(table_name))
        },
        None => events.push(TableChangeEvents::ChangeTableName(table_name)),
    }
}

/// Adding a column: a pending removal of a column of that name is undone,
/// turned into a change of type if the type differs from the column's.
pub open spec fn spec_add_column(
    events: Seq<TableChangeEvents>,
    columns: Seq<Column>,
    column_name: String,
    data_type: DataType,
) -> Seq<TableChangeEvents> {
    match first_index(events, EventKind::RemoveColumn, column_name@) {
        Some(i) => match spec_column_datatype(columns, column_name@) {
            Some(original) => if original == data_type {
                events.remove(i)
            } else {
                events.remove(i).push(TableChangeEvents::ChangeColumnDataType(column_name, data_type))
            },
            None => events,
        },
        None => events.push(TableChangeEvents::AddColumn(column_name, data_type)),
    }
}

/// Changing the type of a column: a pending change of type is replaced (or
/// dropped when the column gets back its type); a pending addition of the
/// column takes the new type.
pub open spec fn spec_change_column_datatype(
    events: Seq<TableChangeEvents>,
    columns: Seq<Column>,
    column_name: String,
    data_type: DataType,
) -> Seq<TableChangeEvents> {
    match first_index(events, EventKind::ChangeColumnDataType, column_name@) {
        Some(i) => match spec_column_datatype(columns, column_name@) {
            Some(original) => if original == data_type {
                events.remove(i)
            } else {
                events.remove(i).push(TableChangeEvents::ChangeColumnDataType(column_name, data_type))
            },
            None => events.remove(i).push(
                TableChangeEvents::ChangeColumnDataType(column_name, data_type),
            ),
        },
        None => match first_index(events, EventKind::AddColumn, column_name@) {
            Some(i) => match events[i] {
                TableChangeEvents::AddColumn(_, added) => if added != data_type {
                    events.remove(i).push(TableChangeEvents::AddColumn(column_name, data_type))
                } else {
                    events
                },
                _ => events,
            },
            None => events.push(TableChangeEvents::ChangeColumnDataType(column_name, data_type)),
        },
    }
}

/// A pending change of type of a renamed column follows the new name.
pub open spec fn spec_rename_datatype_change(
    events: Seq<TableChangeEvents>,
    column_name: Seq<char>,
    new_column_name: String,
) -> Seq<TableChangeEvents> {
    match first_index(events, EventKind::ChangeColumnDataType, column_name) {
        Some(i) => match events[i] {
            TableChangeEvents::ChangeColumnDataType(_, data_type) => events.remove(i).push(
                TableChangeEvents::ChangeColumnDataType(new_column_name, data_type),
            ),
            _ => events,
        },
        None => events,
    }
}

/// The pending rename at `i` now leads to `new_column_name`; it is dropped
/// when that is the column's original name.
pub open spec fn spec_update_rename(
    events: Seq<TableChangeEvents>,
    i: int,
    new_column_name: String,
) -> Seq<TableChangeEvents> {
    match events[i] {
        TableChangeEvents::ChangeColumnName(original, _) => if original@ != new_column_name@ {
            events.push(TableChangeEvents::ChangeColumnName(original, new_column_name)).remove(i)
        } else {
            events.remove(i)
        },
        _ => events.remove(i),
    }
}

/// The pending addition at `i` adds the column under its new name.
pub open spec fn spec_update_added_column(
    events: Seq<TableChangeEvents>,
    columns: Seq<Column>,
    i: int,
    new_column_name: String,
) -> Seq<TableChangeEvents> {
    match events[i] {
        TableChangeEvents::AddColumn(_, data_type) => spec_add_column(
            events.remove(i),
            columns,
            new_column_name,
            data_type,
        ),
        _ => events,
    }
}

/// Renaming a column.
pub open spec fn spec_change_column_name(
    events: Seq<TableChangeEvents>,
    columns: Seq<Column>,
    column_name: String,
    new_column_name: String,
) -> Seq<TableChangeEvents> {
    if column_name@ == new_column_name@ {
        events
    } else {
        let e1 = spec_rename_datatype_change(events, column_name@, new_column_name);
        let e2 = match first_index(e1, EventKind::RenameColumnTo, column_name@) {
            Some(i) => spec_update_rename(e1, i, new_column_name),
            None => match first_index(e1, EventKind::AddColumn, column_name@) {
                Some(i) => spec_update_added_column(e1, columns, i, new_column_name),
                None => e1.push(TableChangeEvents::ChangeColumnName(column_name, new_column_name)),
            },
        };
        match first_index(e2, EventKind::AddPrimaryKey, column_name@) {
            Some(i) => e2.remove(i).push(TableChangeEvents::AddPrimaryKey(new_column_name)),
            None => e2,
        }
    }
}

/// Removing a column: pending key changes of the column go, a pending
/// addition is undone, and a renamed column is removed under its original name.
pub open spec fn spec_remove_column(
    events: Seq<TableChangeEvents>,
    column_name: String,
) -> Seq<TableChangeEvents> {
    let e1 = remove_first(events, EventKind::AddPrimaryKey, column_name@);
    let e2 = remove_first(e1, EventKind::AddForeignKey, column_name@);
    let e3 = remove_first(e2, EventKind::RemovePrimaryKey, column_name@);
    match first_index(e3, EventKind::AddColumn, column_name@) {
        Some(i) => e3.remove(i),
        None => match first_index(e3, EventKind::ChangeColumnDataType, column_name@) {
            Some(i) => e3.remove(i).push(TableChangeEvents::RemoveColumn(column_name)),
            None => match first_index(e3, EventKind::RenameColumnTo, column_name@) {
                Some(i) => match e3[i] {
                    TableChangeEvents::ChangeColumnName(original, _) => e3.remove(i).push(
                        TableChangeEvents::RemoveColumn(original),
                    ),
                    _ => e3,
                },
                None => e3.push(TableChangeEvents::RemoveColumn(column_name)),
            },
        },
    }
}

/// Adding a primary key cancels a pending removal of it.
pub open spec fn spec_add_primary_key(events: Seq<TableChangeEvents>, column_name: String) -> Seq<TableChangeEvents> {
    match first_index(events, EventKind::RemovePrimaryKey, column_name@) {
        Some(i) => events.remove(i),
        None => events.push(TableChangeEvents::AddPrimaryKey(column_name)),
    }
}

/// Removing a primary key cancels a pending addition of it.
pub open spec fn spec_remove_primary_key(events: Seq<TableChangeEvents>, column_name: String) -> Seq<TableChangeEvents> {
    match first_index(events, EventKind::AddPrimaryKey, column_name@) {
        Some(i) => events.remove(i),
        None => events.push(TableChangeEvents::RemovePrimaryKey(column_name)),
    }
}

/// Adding a foreign key replaces a pending one of the column, or cancels a
/// pending removal.
pub open spec fn spec_add_foreign_key(
    events: Seq<TableChangeEvents>,
    foreign_key: ColumnForeignKey,
) -> Seq<TableChangeEvents> {
    match first_index(events, EventKind::AddForeignKey, foreign_key.column_name@) {
        Some(i) => events.remove(i).push(TableChangeEvents::AddForeignKey(foreign_key)),
        None => match first_index(events, EventKind::RemoveForeignKey, foreign_key.column_name@) {
            Some(i) => events.remove(i),
            None => events.push(TableChangeEvents::AddForeignKey(foreign_key)),
        },
    }
}

/// Removing a foreign key cancels a pending addition of it.
pub open spec fn spec_remove_foreign_key(events: Seq<TableChangeEvents>, column_name: String) -> Seq<TableChangeEvents> {
    match first_index(events, EventKind::AddForeignKey, column_name@) {
        Some(i) => events.remove(i),
        None => events.push(TableChangeEvents::RemoveForeignKey(column_name)),
    }
}

/// The log of pending changes after `event` is merged into it.
pub open spec fn spec_add_table_change_event(
    events: Seq<TableChangeEvents>,
    columns: Seq<Column>,
    current: Option<String>,
    event: TableChangeEvents,
) -> Seq<TableChangeEvents> {
    match event {
        TableChangeEvents::ChangeTableName(n) => spec_change_table_name(events, current, n),
        TableChangeEvents::ChangeColumnDataType(c, d) => spec_change_column_datatype(
            events,
            columns,
            c,
            d,
        ),
        TableChangeEvents::ChangeColumnName(c, n) => spec_change_column_name(events, columns, c, n),
        TableChangeEvents::RemoveColumn(c) => spec_remove_column(events, c),
        TableChangeEvents::AddColumn(c, d) => spec_add_column(events, columns, c, d),
        TableChangeEvents::AddForeignKey(fk) => spec_add_foreign_key(events, fk),
        TableChangeEvents::RemoveForeignKey(c) => spec_remove_foreign_key(events, c),
        TableChangeEvents::AddPrimaryKey(c) => spec_add_primary_key(events, c),
        TableChangeEvents::RemovePrimaryKey(c) => spec_remove_primary_key(events, c),
    }
}

/// Whether `event` can be merged: a second rename of the table compares the
/// new name with the current one, which must then be known.
pub open spec fn event_can_merge(
    events: Seq<TableChangeEvents>,
    current: Option<String>,
    event: TableChangeEvents,
) -> bool {
    event is ChangeTableName && first_index(events, EventKind::ChangeTableName, Seq::empty()) is Some
        ==> current is Some
}

/// The number of pending additions of a primary key.
pub open spec fn count_key_additions(events: Seq<TableChangeEvents>) -> nat
    decreases events.len(),
{
    if events.len() == 0 {
        0
    } else {
        count_key_additions(events.drop_last()) + if events.last() is AddPrimaryKey {
            1nat
        } else {
            0nat
        }
    }
}

/// Whether a change takes a primary key away: the removal of a primary key,
/// or of a column whose name is one of `key_names`.
pub open spec fn removes_key(key_names: Seq<String>, e: TableChangeEvents) -> bool {
    match e {
        TableChangeEvents::RemoveColumn(c) => views(key_names).contains(c@),
        TableChangeEvents::RemovePrimaryKey(_) => true,
        _ => false,
    }
}

/// The number of pending changes that take a primary key away.
pub open spec fn count_key_removals(key_names: Seq<String>, events: Seq<TableChangeEvents>) -> nat
    decreases events.len(),
{
    if events.len() == 0 {
        0
    } else {
        count_key_removals(key_names, events.drop_last()) + if removes_key(key_names, events.last()) {
            1nat
        } else {
            0nat
        }
    }
}

/// The name of the table once the renames among `events` are applied.
pub open spec fn spec_table_name_after(current: Option<String>, events: Seq<TableChangeEvents>) -> Option<String>
    decreases events.len(),
{
    if events.len() == 0 {
        current
    } else {
        match events.last() {
            TableChangeEvents::ChangeTableName(n) => Some(n),
            _ => spec_table_name_after(current, events.drop_last()),
        }
    }
}

/// The log after the changes that give a table with no primary key left one:
/// a column `id` of type integer that is its primary key.
pub open spec fn spec_with_key_column(
    events: Seq<TableChangeEvents>,
    columns: Seq<Column>,
    current: Option<String>,
    id: String,
) -> Seq<TableChangeEvents> {
    let e1 = spec_add_table_change_event(
        events,
        columns,
        current,
        TableChangeEvents::AddColumn(id, DataType::INTEGER),
    );
    spec_add_table_change_event(e1, columns, current, TableChangeEvents::AddPrimaryKey(id))
}

/// A table that has a name keeps one whatever renames are applied.
pub proof fn lemma_name_after_some(name: String, events: Seq<TableChangeEvents>)
    ensures
        spec_table_name_after(Some(name), events) is Some,
    decreases events.len(),
{
    if events.len() > 0 {
        lemma_name_after_some(name, events.drop_last());
    }
}

/// `after` is `before` once its changes were submitted with `queries`: a
/// primary key column `id` was added first if the table would have been left
/// without a primary key, then the pending changes became `queries`, the
/// table took its new name, and the log was emptied.
pub open spec fn spec_table_updated(before: TableInfo, after: TableInfo, queries: Seq<Seq<char>>) -> bool {
    &&& after.columns_info == before.columns_info
    &&& after.events().len() == 0
    &&& exists|pending: TableInfo|
        {
            &&& pending.table_name == before.table_name
            &&& pending.columns_info == before.columns_info
            &&& (before.spec_at_least_one_primary_key() ==> pending.events() == before.events())
            &&& (!before.spec_at_least_one_primary_key() ==> exists|id: String|
                id@ == "id"@ && pending.events() == spec_with_key_column(
                    before.events(),
                    before.columns_info@,
                    before.table_name,
                    id,
                ))
            &&& queries == pending.spec_pending_queries()
            &&& after.table_name == spec_table_name_after(pending.table_name, pending.events())
        }
}

// ---------------------------------------------------------------------------
// The table being edited
// ---------------------------------------------------------------------------

/// The table being edited: its name and columns as last read from the
/// database, and the log of changes not yet applied to it.
#[derive(Debug, Clone)]
pub struct TableInfo {
    pub table_name: Option<String>,
    pub columns_info: Vec<Column>,
    pub table_change_events: Vec<TableChangeEvents>,
}

impl TableInfo {
    /// The pending changes, oldest first.
    pub open spec fn events(&self) -> Seq<TableChangeEvents> {
        self.table_change_events@
    }

    /// Whether the table keeps a primary key once the pending changes are applied.
    pub open spec fn spec_at_least_one_primary_key(&self) -> bool {
        let keys = spec_primary_key_column_names(self.columns_info@);
        keys.len() + count_key_additions(self.events()) > count_key_removals(keys, self.events())
    }

    /// The statements that apply the pending changes.
    pub open spec fn spec_pending_queries(&self) -> Seq<Seq<char>> {
        if self.events().len() > 0 {
            spec_alter_table_queries(self.table_name.unwrap()@, self.events())
        } else {
            Seq::empty()
        }
    }

    /// A table with no name, no columns and no pending change.
    pub fn new() -> (res: Self)
        ensures
            res.table_name is None,
            res.columns_info@.len() == 0,
            res.events().len() == 0,
    {
        TableInfo { table_name: None, columns_info: Vec::new(), table_change_events: Vec::new() }
    }

    /// The pending changes.
    pub fn get_table_change_events(&self) -> (res: Vec<TableChangeEvents>)
        ensures
            res@ == self.events(),
    {
        duplicate_events(&self.table_change_events)
    }

    /// Forgets the table.
    pub fn reset_table_info(&mut self)
        ensures
            final(self).table_name is None,
            final(self).columns_info@.len() == 0,
            final(self).events().len() == 0,
    {
        self.table_name = None;
        self.columns_info = Vec::new();
        self.table_change_events = Vec::new();
    }

    fn handle_change_table_name(
        current: &Option<String>,
        events: &mut Vec<TableChangeEvents>,
        table_name: String,
    )
        requires
            first_index(old(events)@, EventKind::ChangeTableName, Seq::empty()) is Some ==> current is Some,
        ensures
            final(events)@ == spec_change_table_name(old(events)@, *current, table_name),
    {
        match find_event(events, EventKind::ChangeTableName, "") {
            Some(i) => {
                proof {
                    reveal_strlit("");
                    assert(""@ =~= Seq::<char>::empty());
                }
                let same = match current {
                    Some(c) => str_eq(table_name.as_str(), c.as_str()),
                    None => false,
                };
                events.remove(i);
                if !same {
                    events.push(TableChangeEvents::ChangeTableName(table_name));
                }
            },
            None => {
                proof {
                    reveal_strlit("");
                    assert(""@ =~= Seq::<char>::empty());
                }
                events.push(TableChangeEvents::ChangeTableName(table_name));
            },
        }
    }

    fn handle_add_column(
        columns: &Vec<Column>,
        events: &mut Vec<TableChangeEvents>,
        column_name: String,
        data_type: DataType,
    )
        ensures
            final(events)@ == spec_add_column(old(events)@, columns@, column_name, data_type),
    {
        match find_event(events, EventKind::RemoveColumn, column_name.as_str()) {
            Some(i) => {
                match find_column_datatype(columns, column_name.as_str()) {
                    Some(original) => {
                        events.remove(i);
                        if original != data_type {
                            events.push(TableChangeEvents::ChangeColumnDataType(column_name, data_type));
                        }
                    },
                    None => {},
                }
            },
            None => {
                events.push(TableChangeEvents::AddColumn(column_name, data_type));
            },
        }
    }

    fn handle_change_column_datatype(
        columns: &Vec<Column>,
        events: &mut Vec<TableChangeEvents>,
        column_name: String,
        data_type: DataType,
    )
        ensures
            final(events)@ == spec_change_column_datatype(old(events)@, columns@, column_name, data_type),
    {
        match find_event(events, EventKind::ChangeColumnDataType, column_name.as_str()) {
            Some(i) => {
                match find_column_datatype(columns, column_name.as_str()) {
                    Some(original) => {
                        events.remove(i);
                        if original != data_type {
                            events.push(TableChangeEvents::ChangeColumnDataType(column_name, data_type));
                        }
                    },
                    None => {
                        events.remove(i);
                        events.push(TableChangeEvents::ChangeColumnDataType(column_name, data_type));
                    },
                }
            },
            None => {
                match find_event(events, EventKind::AddColumn, column_name.as_str()) {
                    Some(i) => {
                        let added = match &events[i] {
                            TableChangeEvents::AddColumn(_, d) => Some(*d),
                            _ => None,
                        };
                        match added {
                            Some(d) => {
                                if d != data_type {
                                    events.remove(i);
                                    events.push(TableChangeEvents::AddColumn(column_name, data_type));
                                }
                            },
                            None => {},
                        }
                    },
                    None => {
                        events.push(TableChangeEvents::ChangeColumnDataType(column_name, data_type));
                    },
                }
            },
        }
    }

    fn rename_existing_datatype_change_event_locked(
        events: &mut Vec<TableChangeEvents>,
        column_name: &str,
        new_column_name: &String,
    )
        ensures
            final(events)@ == spec_rename_datatype_change(old(events)@, column_name@, *new_column_name),
    {
        match find_event(events, EventKind::ChangeColumnDataType, column_name) {
            Some(i) => {
                let d = match &events[i] {
                    TableChangeEvents::ChangeColumnDataType(_, d) => Some(*d),
                    _ => None,
                };
                match d {
                    Some(data_type) => {
                        events.remove(i);
                        events.push(
                            TableChangeEvents::ChangeColumnDataType(new_column_name.clone(), data_type),
                        );
                    },
                    None => {},
                }
            },
            None => {},
        }
    }

    fn update_existing_rename_event_locked(
        events: &mut Vec<TableChangeEvents>,
        event_index: usize,
        new_column_name: String,
    )
        requires
            event_index < old(events)@.len(),
        ensures
            final(events)@ == spec_update_rename(old(events)@, event_index as int, new_column_name),
    {
        let original = match &events[event_index] {
            TableChangeEvents::ChangeColumnName(o, _) => Some(o.clone()),
            _ => None,
        };
        match original {
            Some(o) => {
                if !str_eq(o.as_str(), new_column_name.as_str()) {
                    events.push(TableChangeEvents::ChangeColumnName(o, new_column_name));
                }
            },
            None => {},
        }
        events.remove(event_index);
    }

    fn update_existing_add_column_event_locked(
        columns: &Vec<Column>,
        events: &mut Vec<TableChangeEvents>,
        event_index: usize,
        new_column_name: String,
    )
        requires
            event_index < old(events)@.len(),
        ensures
            final(events)@ == spec_update_added_column(
                old(events)@,
                columns@,
                event_index as int,
                new_column_name,
            ),
    {
        let added = match &events[event_index] {
            TableChangeEvents::AddColumn(_, d) => Some(*d),
            _ => None,
        };
        match added {
            Some(data_type) => {
                events.remove(event_index);
                Self::handle_add_column(columns, events, new_column_name, data_type);
            },
            None => {},
        }
    }

    fn handle_change_column_name(
        columns: &Vec<Column>,
        events: &mut Vec<TableChangeEvents>,
        column_name: String,
        new_column_name: String,
    )
        ensures
            final(events)@ == spec_change_column_name(
                old(events)@,
                columns@,
                column_name,
                new_column_name,
            ),
    {
        if str_eq(column_name.as_str(), new_column_name.as_str()) {
            return ;
        }
        Self::rename_existing_datatype_change_event_locked(
            events,
            column_name.as_str(),
            &new_column_name,
        );
        let ghost e1 = events@;
        match find_event(events, EventKind::RenameColumnTo, column_name.as_str()) {
            Some(i) => {
                Self::update_existing_rename_event_locked(events, i, new_column_name.clone());
            },
            None => {
                match find_event(events, EventKind::AddColumn, column_name.as_str()) {
                    Some(i) => {
                        Self::update_existing_add_column_event_locked(
                            columns,
                            events,
                            i,
                            new_column_name.clone(),
                        );
                    },
                    None => {
                        events.push(
                            TableChangeEvents::ChangeColumnName(
                                column_name.clone(),
                                new_column_name.clone(),
                            ),
                        );
                    },
                }
            },
        }
        match find_event(events, EventKind::AddPrimaryKey, column_name.as_str()) {
            Some(i) => {
                events.remove(i);
                events.push(TableChangeEvents::AddPrimaryKey(new_column_name));
            },
            None => {},
        }
    }

    fn remove_first_event(events: &mut Vec<TableChangeEvents>, kind: EventKind, column_name: &str)
        ensures
            final(events)@ == remove_first(old(events)@, kind, column_name@),
    {
        match find_event(events, kind, column_name) {
            Some(i) => {
                events.remove(i);
            },
            None => {},
        }
    }

    fn handle_remove_column(events: &mut Vec<TableChangeEvents>, column_name: String)
        ensures
            final(events)@ == spec_remove_column(old(events)@, column_name),
    {
        Self::remove_first_event(events, EventKind::AddPrimaryKey, column_name.as_str());
        Self::remove_first_event(events, EventKind::AddForeignKey, column_name.as_str());
        Self::remove_first_event(events, EventKind::RemovePrimaryKey, column_name.as_str());
        match find_event(events, EventKind::AddColumn, column_name.as_str()) {
            Some(i) => {
                events.remove(i);
            },
            None => match find_event(events, EventKind::ChangeColumnDataType, column_name.as_str()) {
                Some(i) => {
                    events.remove(i);
                    events.push(TableChangeEvents::RemoveColumn(column_name));
                },
                None => match find_event(events, EventKind::RenameColumnTo, column_name.as_str()) {
                    Some(i) => {
                        let original = match &events[i] {
                            TableChangeEvents::ChangeColumnName(o, _) => Some(o.clone()),
                            _ => None,
                        };
                        match original {
                            Some(o) => {
                                events.remove(i);
                                events.push(TableChangeEvents::RemoveColumn(o));
                            },
                            None => {},
                        }
                    },
                    None => {
                        events.push(TableChangeEvents::RemoveColumn(column_name));
                    },
                },
            },
        }
    }

    fn handle_add_primary_key(events: &mut Vec<TableChangeEvents>, column_name: String)
        ensures
            final(events)@ == spec_add_primary_key(old(events)@, column_name),
    {
        match find_event(events, EventKind::RemovePrimaryKey, column_name.as_str()) {
            Some(i) => {
                events.remove(i);
            },
            None => {
                events.push(TableChangeEvents::AddPrimaryKey(column_name));
            },
        }
    }

    fn handle_remove_primary_key(events: &mut Vec<TableChangeEvents>, column_name: String)
        ensures
            final(events)@ == spec_remove_primary_key(old(events)@, column_name),
    {
        match find_event(events, EventKind::AddPrimaryKey, column_name.as_str()) {
            Some(i) => {
                events.remove(i);
            },
            None => {
                events.push(TableChangeEvents::RemovePrimaryKey(column_name));
            },
        }
    }

    fn handle_add_foreign_key(events: &mut Vec<TableChangeEvents>, column_foreign_key: ColumnForeignKey)
        ensures
            final(events)@ == spec_add_foreign_key(old(events)@, column_foreign_key),
    {
        match find_event(events, EventKind::AddForeignKey, column_foreign_key.column_name.as_str()) {
            Some(i) => {
                events.remove(i);
                events.push(TableChangeEvents::AddForeignKey(column_foreign_key));
            },
            None => match find_event(
                events,
                EventKind::RemoveForeignKey,
                column_foreign_key.column_name.as_str(),
            ) {
                Some(i) => {
                    events.remove(i);
                },
                None => {
                    events.push(TableChangeEvents::AddForeignKey(column_foreign_key));
                },
            },
        }
    }

    fn handle_remove_foreign_key(events: &mut Vec<TableChangeEvents>, column_name: String)
        ensures
            final(events)@ == spec_remove_foreign_key(old(events)@, column_name),
    {
        match find_event(events, EventKind::AddForeignKey, column_name.as_str()) {
            Some(i) => {
                events.remove(i);
            },
            None => {
                events.push(TableChangeEvents::RemoveForeignKey(column_name));
            },
        }
    }

    /// Merges a change into the log of pending changes.
    pub fn add_table_change_event(&mut self, table_change_event: TableChangeEvents)
        requires
            event_can_merge(old(self).events(), old(self).table_name, table_change_event),
        ensures
            final(self).events() == spec_add_table_change_event(
                old(self).events(),
                old(self).columns_info@,
                old(self).table_name,
                table_change_event,
            ),
            final(self).table_name == old(self).table_name,
            final(self).columns_info == old(self).columns_info,
    {
        match table_change_event {
            TableChangeEvents::ChangeTableName(n) => {
                Self::handle_change_table_name(&self.table_name, &mut self.table_change_events, n);
            },
            TableChangeEvents::ChangeColumnDataType(c, d) => {
                Self::handle_change_column_datatype(&self.columns_info, &mut self.table_change_events, c, d);
            },
            TableChangeEvents::ChangeColumnName(c, n) => {
                Self::handle_change_column_name(&self.columns_info, &mut self.table_change_events, c, n);
            },
            TableChangeEvents::RemoveColumn(c) => {
                Self::handle_remove_column(&mut self.table_change_events, c);
            },
            TableChangeEvents::AddColumn(c, d) => {
                Self::handle_add_column(&self.columns_info, &mut self.table_change_events, c, d);
            },
            TableChangeEvents::AddForeignKey(fk) => {
                Self::handle_add_foreign_key(&mut self.table_change_events, fk);
            },
            TableChangeEvents::RemoveForeignKey(c) => {
                Self::handle_remove_foreign_key(&mut self.table_change_events, c);
            },
            TableChangeEvents::AddPrimaryKey(c) => {
                Self::handle_add_primary_key(&mut self.table_change_events, c);
            },
            TableChangeEvents::RemovePrimaryKey(c) => {
                Self::handle_remove_primary_key(&mut self.table_change_events, c);
            },
        }
    }

    /// The names of the columns that carry a primary key.
    pub fn primary_key_column_names(&self) -> (res: Vec<String>)
        ensures
            res@ == spec_primary_key_column_names(self.columns_info@),
    {
        let ghost cols = self.columns_info@;
        let mut res: Vec<String> = Vec::new();
        let mut i: usize = 0;
        while i < self.columns_info.len()
            invariant
                cols == self.columns_info@,
                i <= cols.len(),
                res@ == spec_primary_key_column_names(cols.take(i as int)),
            decreases cols.len() - i,
        {
            let ghost r0 = res@;
            if column_has_primary_key(&self.columns_info[i]) {
                res.push(self.columns_info[i].name.clone());
            }
            proof {
                let t1 = cols.take(i + 1);
                assert(t1.drop_last() =~= cols.take(i as int));
                assert(t1.last() == cols[i as int]);
            }
            i = i + 1;
        }
        assert(cols.take(cols.len() as int) =~= cols);
        res
    }

    /// The number of pending additions of a primary key.
    pub fn add_primary_key_events_count(&self) -> (res: usize)
        ensures
            res == count_key_additions(self.events()),
    {
        let ghost ev = self.events();
        let mut count: usize = 0;
        let mut i: usize = 0;
        while i < self.table_change_events.len()
            invariant
                ev == self.events(),
                i <= ev.len(),
                count == count_key_additions(ev.take(i as int)),
                count <= i,
            decreases ev.len() - i,
        {
            if let TableChangeEvents::AddPrimaryKey(_) = &self.table_change_events[i] {
                count = count + 1;
            }
            proof {
                let t1 = ev.take(i + 1);
                assert(t1.drop_last() =~= ev.take(i as int));
                assert(t1.last() == ev[i as int]);
            }
            i = i + 1;
        }
        assert(ev.take(ev.len() as int) =~= ev);
        count
    }

    /// Whether the table keeps at least one primary key once the pending
    /// changes are applied.
    pub fn at_least_one_primary_key(&self) -> (res: bool)
        ensures
            res == self.spec_at_least_one_primary_key(),
    {
        let primary_key_column_names = self.primary_key_column_names();
        let add_primary_key_events_count = self.add_primary_key_events_count();
        let ghost ev = self.events();
        let ghost keys = spec_primary_key_column_names(self.columns_info@);
        let mut remove_primary_key_count: usize = 0;
        let mut i: usize = 0;
        while i < self.table_change_events.len()
            invariant
                ev == self.events(),
                keys == primary_key_column_names@,
                i <= ev.len(),
                remove_primary_key_count == count_key_removals(keys, ev.take(i as int)),
                remove_primary_key_count <= i,
            decreases ev.len() - i,
        {
            let removes = match &self.table_change_events[i] {
                TableChangeEvents::RemoveColumn(c) => crate::sql::contains_key(
                    &primary_key_column_names,
                    c.as_str(),
                ),
                TableChangeEvents::RemovePrimaryKey(_) => true,
                _ => false,
            };
            if removes {
                remove_primary_key_count = remove_primary_key_count + 1;
            }
            proof {
                let t1 = ev.take(i + 1);
                assert(t1.drop_last() =~= ev.take(i as int));
                assert(t1.last() == ev[i as int]);
            }
            i = i + 1;
        }
        assert(ev.take(ev.len() as int) =~= ev);
        (primary_key_column_names.len() as u128) + (add_primary_key_events_count as u128) > (
        remove_primary_key_count as u128)
    }

    /// Applies the pending changes: returns the statements that apply them to
    /// the database, takes the table's new name and empties the log.
    pub fn alter_table(&mut self) -> (res: Vec<String>)
        requires
            old(self).events().len() > 0 ==> old(self).table_name is Some,
        ensures
            views(res@) == old(self).spec_pending_queries(),
            final(self).table_name == spec_table_name_after(old(self).table_name, old(self).events()),
            final(self).columns_info == old(self).columns_info,
            final(self).events().len() == 0,
    {
        let mut queries: Vec<String> = Vec::new();
        if self.table_change_events.len() > 0 {
            match &self.table_name {
                Some(name) => {
                    queries = alter_table_queries(name.as_str(), &self.table_change_events);
                },
                None => {},
            }
        }
        let ghost ev = self.events();
        let ghost name0 = self.table_name;
        let ghost cols0 = self.columns_info;
        let mut i: usize = 0;
        while i < self.table_change_events.len()
            invariant
                ev == self.events(),
                cols0 == self.columns_info,
                i <= ev.len(),
                self.table_name == spec_table_name_after(name0, ev.take(i as int)),
            decreases ev.len() - i,
        {
            match &self.table_change_events[i] {
                TableChangeEvents::ChangeTableName(n) => {
                    self.table_name = Some(n.clone());
                },
                _ => {},
            }
            proof {
                let t1 = ev.take(i + 1);
                assert(t1.drop_last() =~= ev.take(i as int));
                assert(t1.last() == ev[i as int]);
            }
            i = i + 1;
        }
        assert(ev.take(ev.len() as int) =~= ev);
        self.table_change_events = Vec::new();
        queries
    }

    /// Makes sure the table keeps a primary key: when the pending changes
    /// would leave it none, a column `id` of type integer is added as its key.
    pub fn ensure_primary_key(&mut self)
        ensures
            final(self).table_name == old(self).table_name,
            final(self).columns_info == old(self).columns_info,
            old(self).spec_at_least_one_primary_key() ==> final(self).events() == old(self).events(),
            !old(self).spec_at_least_one_primary_key() ==> exists|id: String|
                id@ == "id"@ && final(self).events() == spec_with_key_column(
                    old(self).events(),
                    old(self).columns_info@,
                    old(self).table_name,
                    id,
                ),
    {
        if !self.at_least_one_primary_key() {
            let ghost ev0 = self.events();
            let column_name = owned("id");
            let ghost id = column_name;
            self.add_table_change_event(TableChangeEvents::AddColumn(column_name.clone(), DataType::INTEGER));
            self.add_table_change_event(TableChangeEvents::AddPrimaryKey(column_name));
            proof {
                reveal_strlit("id");
                assert(self.events() == spec_with_key_column(ev0, self.columns_info@, self.table_name, id));
            }
        }
    }

    /// Submits the pending changes: gives the table a primary key if it would
    /// be left without one, then applies the changes as `alter_table` does.
    pub fn update_table(&mut self) -> (res: Vec<String>)
        requires
            old(self).table_name is Some,
        ensures
            spec_table_updated(*old(self), *final(self), views(res@)),
            final(self).table_name is Some,
    {
        self.ensure_primary_key();
        let ghost pending = *self;
        let res = self.alter_table();
        proof {
            lemma_name_after_some(pending.table_name.unwrap(), pending.events());
        }
        res
    }

    /// Takes the table `table_name` as the database describes it, drops the
    /// pending changes and clears the messages of the console.
    pub fn set_table_info(&mut self, table_name: String, columns_info: Vec<ColumnsInfo>, console: &mut Console)
        requires
            forall|i: int| 0 <= i < columns_info@.len() ==> is_readable_column_info(#[trigger] columns_info@[i]),
        ensures
            final(console).messages@.len() == 0,
            final(console).repository_console == old(console).repository_console,
            final(self).table_name == Some(table_name),
            final(self).events().len() == 0,
            final(self).columns_info@.len() == columns_info@.len(),
            forall|i: int| 0 <= i < columns_info@.len() ==> {
                let c = #[trigger] final(self).columns_info@[i];
                &&& c.name == columns_info@[i].column_name
                &&& spec_information_schema_name(c.datatype) == columns_info@[i].data_type@
                &&& c.constraints@ == spec_info_constraints(columns_info@[i])
            },
    {
        let ghost infos = columns_info@;
        let n = columns_info.len();
        let mut rest = columns_info;
        let mut columns: Vec<Column> = Vec::new();
        let mut i: usize = 0;
        assert(infos.skip(0) =~= infos);
        while i < n
            invariant
                n == infos.len(),
                i <= infos.len(),
                rest@ == infos.skip(i as int),
                forall|j: int| 0 <= j < infos.len() ==> is_readable_column_info(#[trigger] infos[j]),
                columns@.len() == i,
                forall|j: int| 0 <= j < i ==> {
                    let c = #[trigger] columns@[j];
                    &&& c.name == infos[j].column_name
                    &&& spec_information_schema_name(c.datatype) == infos[j].data_type@
                    &&& c.constraints@ == spec_info_constraints(infos[j])
                },
            decreases infos.len() - i,
        {
            let info = rest.remove(0);
            assert(info == infos[i as int]);
            assert(rest@ =~= infos.skip(i + 1));
            columns.push(Column::to_column(info));
            i = i + 1;
        }
        self.columns_info = columns;
        self.table_name = Some(table_name);
        self.table_change_events = Vec::new();
        console.clear_messages();
    }
}

} // verus!
