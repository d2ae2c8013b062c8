use vstd::prelude::*;
use crate::events::{first_index, is_first_match, lemma_first_index_is, lemma_first_index_none, matches_kind, EventKind};
use crate::schemas::{ColumnForeignKey, DataType, TableChangeEvents, Column};
use crate::row_changes::{
    is_first_row_change, modifies_row, same_row_values, spec_add_row_change, TableDataChangeEvents,
};
use crate::sql::{join, quote, spec_column_definition, spec_constraint_clause, spec_constraint_clauses, spec_create_table_query, spec_final_table_name, spec_name_after, views};
use crate::schemas::Constraint;
use crate::filter::{regex_compiles, regex_is_match, table_listed};
use crate::table_info::{
    spec_table_updated, TableInfo, count_key_additions, count_key_removals, removes_key, spec_add_primary_key,
    spec_primary_key_column_names, spec_with_key_column, spec_table_name_after,
    remove_first, spec_add_column, spec_add_table_change_event, spec_change_column_datatype,
    spec_change_column_name, spec_change_table_name, spec_column_datatype, spec_remove_column,
    spec_rename_datatype_change, spec_update_added_column, spec_update_rename,
};

verus! {

// ---------------------------------------------------------------------------
// How a lookup in the log behaves when an event is appended
// ---------------------------------------------------------------------------

proof fn lemma_push_not_matching(s: Seq<TableChangeEvents>, x: TableChangeEvents, kind: EventKind, name: Seq<char>)
    requires
        first_index(s, kind, name) is None,
        !matches_kind(x, kind, name),
    ensures
        first_index(s.push(x), kind, name) is None,
{
    lemma_none_means_no_match(s, kind, name);
    assert forall|j: int| 0 <= j < s.push(x).len() implies !matches_kind(#[trigger] s.push(x)[j], kind, name) by {
        if j < s.len() {
            assert(s.push(x)[j] == s[j]);
        }
    }
    lemma_first_index_none(s.push(x), kind, name);
}

/// When some event matches, the first one is found.
proof fn lemma_first_match_exists(s: Seq<TableChangeEvents>, kind: EventKind, name: Seq<char>, j: int)
    requires
        0 <= j < s.len(),
        matches_kind(s[j], kind, name),
    ensures
        first_index(s, kind, name) is Some,
    decreases j,
{
    if forall|m: int| 0 <= m < j ==> !matches_kind(#[trigger] s[m], kind, name) {
        lemma_first_index_is(s, kind, name, j);
    } else {
        let m = choose|m: int| 0 <= m < j && !!matches_kind(#[trigger] s[m], kind, name);
        lemma_first_match_exists(s, kind, name, m);
    }
}

proof fn lemma_none_means_no_match(s: Seq<TableChangeEvents>, kind: EventKind, name: Seq<char>)
    requires
        first_index(s, kind, name) is None,
    ensures
        forall|j: int| 0 <= j < s.len() ==> !matches_kind(#[trigger] s[j], kind, name),
{
    assert forall|j: int| 0 <= j < s.len() implies !matches_kind(#[trigger] s[j], kind, name) by {
        if matches_kind(s[j], kind, name) {
            lemma_first_match_exists(s, kind, name, j);
        }
    }
}

proof fn lemma_push_matching(s: Seq<TableChangeEvents>, x: TableChangeEvents, kind: EventKind, name: Seq<char>)
    requires
        first_index(s, kind, name) is None,
        matches_kind(x, kind, name),
    ensures
        first_index(s.push(x), kind, name) == Some(s.len() as int),
        s.push(x).remove(s.len() as int) == s,
{
    lemma_none_means_no_match(s, kind, name);
    assert(is_first_match(s.push(x), kind, name, s.len() as int));
    lemma_first_index_is(s.push(x), kind, name, s.len() as int);
    assert(s.push(x).remove(s.len() as int) =~= s);
}

// ---------------------------------------------------------------------------
// Laws of the log of pending changes
// ---------------------------------------------------------------------------

/// Marking a column as primary key and then unmarking it leaves the log as
/// it was, when no key change of that column was pending.
pub proof fn law_add_then_remove_primary_key(
    events: Seq<TableChangeEvents>,
    columns: Seq<Column>,
    current: Option<String>,
    column_name: String,
)
    requires
        first_index(events, EventKind::AddPrimaryKey, column_name@) is None,
        first_index(events, EventKind::RemovePrimaryKey, column_name@) is None,
    ensures
        spec_add_table_change_event(
            spec_add_table_change_event(
                events,
                columns,
                current,
                TableChangeEvents::AddPrimaryKey(column_name),
            ),
            columns,
            current,
            TableChangeEvents::RemovePrimaryKey(column_name),
        ) == events,
{
    lemma_push_matching(events, TableChangeEvents::AddPrimaryKey(column_name), EventKind::AddPrimaryKey, column_name@);
}

/// Unmarking a primary key and then marking it again leaves the log as it
/// was, when no key change of that column was pending.
pub proof fn law_remove_then_add_primary_key(
    events: Seq<TableChangeEvents>,
    columns: Seq<Column>,
    current: Option<String>,
    column_name: String,
)
    requires
        first_index(events, EventKind::AddPrimaryKey, column_name@) is None,
        first_index(events, EventKind::RemovePrimaryKey, column_name@) is None,
    ensures
        spec_add_table_change_event(
            spec_add_table_change_event(
                events,
                columns,
                current,
                TableChangeEvents::RemovePrimaryKey(column_name),
            ),
            columns,
            current,
            TableChangeEvents::AddPrimaryKey(column_name),
        ) == events,
{
    lemma_push_matching(events, TableChangeEvents::RemovePrimaryKey(column_name), EventKind::RemovePrimaryKey, column_name@);
}

/// Adding a foreign key to a column and removing it again leaves the log as
/// it was, when no foreign key change of that column was pending.
pub proof fn law_add_then_remove_foreign_key(
    events: Seq<TableChangeEvents>,
    columns: Seq<Column>,
    current: Option<String>,
    foreign_key: ColumnForeignKey,
)
    requires
        first_index(events, EventKind::AddForeignKey, foreign_key.column_name@) is None,
        first_index(events, EventKind::RemoveForeignKey, foreign_key.column_name@) is None,
    ensures
        spec_add_table_change_event(
            spec_add_table_change_event(
                events,
                columns,
                current,
                TableChangeEvents::AddForeignKey(foreign_key),
            ),
            columns,
            current,
            TableChangeEvents::RemoveForeignKey(foreign_key.column_name),
        ) == events,
{
    lemma_push_matching(
        events,
        TableChangeEvents::AddForeignKey(foreign_key),
        EventKind::AddForeignKey,
        foreign_key.column_name@,
    );
}

/// Adding a column and removing it again leaves the log as it was, when no
/// change of that column was pending.
pub proof fn law_add_then_remove_column(
    events: Seq<TableChangeEvents>,
    columns: Seq<Column>,
    current: Option<String>,
    column_name: String,
    data_type: DataType,
)
    requires
        first_index(events, EventKind::AddColumn, column_name@) is None,
        first_index(events, EventKind::RemoveColumn, column_name@) is None,
        first_index(events, EventKind::AddPrimaryKey, column_name@) is None,
        first_index(events, EventKind::AddForeignKey, column_name@) is None,
        first_index(events, EventKind::RemovePrimaryKey, column_name@) is None,
    ensures
        spec_add_table_change_event(
            spec_add_table_change_event(
                events,
                columns,
                current,
                TableChangeEvents::AddColumn(column_name, data_type),
            ),
            columns,
            current,
            TableChangeEvents::RemoveColumn(column_name),
        ) == events,
{
    let x = TableChangeEvents::AddColumn(column_name, data_type);
    lemma_push_not_matching(events, x, EventKind::AddPrimaryKey, column_name@);
    lemma_push_not_matching(events, x, EventKind::AddForeignKey, column_name@);
    lemma_push_not_matching(events, x, EventKind::RemovePrimaryKey, column_name@);
    lemma_push_matching(events, x, EventKind::AddColumn, column_name@);
}

/// Renaming the table and then giving it back its current name leaves the
/// log as it was, when no rename of the table was pending.
pub proof fn law_rename_table_and_back(
    events: Seq<TableChangeEvents>,
    columns: Seq<Column>,
    current: String,
    new_name: String,
)
    requires
        first_index(events, EventKind::ChangeTableName, Seq::empty()) is None,
    ensures
        spec_add_table_change_event(
            spec_add_table_change_event(
                events,
                columns,
                Some(current),
                TableChangeEvents::ChangeTableName(new_name),
            ),
            columns,
            Some(current),
            TableChangeEvents::ChangeTableName(current),
        ) == events,
{
    lemma_push_matching(
        events,
        TableChangeEvents::ChangeTableName(new_name),
        EventKind::ChangeTableName,
        Seq::empty(),
    );
}

/// Changing the type of a column and changing it back to the column's type
/// leaves the log as it was, when no change of type or addition of the
/// column was pending.
pub proof fn law_change_type_and_back(
    events: Seq<TableChangeEvents>,
    columns: Seq<Column>,
    current: Option<String>,
    column_name: String,
    data_type: DataType,
)
    requires
        first_index(events, EventKind::ChangeColumnDataType, column_name@) is None,
        first_index(events, EventKind::AddColumn, column_name@) is None,
        spec_column_datatype(columns, column_name@) is Some,
    ensures
        spec_add_table_change_event(
            spec_add_table_change_event(
                events,
                columns,
                current,
                TableChangeEvents::ChangeColumnDataType(column_name, data_type),
            ),
            columns,
            current,
            TableChangeEvents::ChangeColumnDataType(
                column_name,
                spec_column_datatype(columns, column_name@).unwrap(),
            ),
        ) == events,
{
    let x = TableChangeEvents::ChangeColumnDataType(column_name, data_type);
    lemma_push_matching(events, x, EventKind::ChangeColumnDataType, column_name@);
}

/// Renaming a column and renaming it back leaves the log as it was, when no
/// change about either name was pending.
pub proof fn law_rename_column_and_back(
    events: Seq<TableChangeEvents>,
    columns: Seq<Column>,
    current: Option<String>,
    column_name: String,
    new_column_name: String,
)
    requires
        column_name@ != new_column_name@,
        first_index(events, EventKind::ChangeColumnDataType, column_name@) is None,
        first_index(events, EventKind::RenameColumnTo, column_name@) is None,
        first_index(events, EventKind::AddColumn, column_name@) is None,
        first_index(events, EventKind::AddPrimaryKey, column_name@) is None,
        first_index(events, EventKind::ChangeColumnDataType, new_column_name@) is None,
        first_index(events, EventKind::RenameColumnTo, new_column_name@) is None,
        first_index(events, EventKind::AddPrimaryKey, new_column_name@) is None,
    ensures
        spec_add_table_change_event(
            spec_add_table_change_event(
                events,
                columns,
                current,
                TableChangeEvents::ChangeColumnName(column_name, new_column_name),
            ),
            columns,
            current,
            TableChangeEvents::ChangeColumnName(new_column_name, column_name),
        ) == events,
{
    let x = TableChangeEvents::ChangeColumnName(column_name, new_column_name);
    lemma_push_not_matching(events, x, EventKind::AddPrimaryKey, column_name@);
    lemma_push_not_matching(events, x, EventKind::ChangeColumnDataType, new_column_name@);
    lemma_push_matching(events, x, EventKind::RenameColumnTo, new_column_name@);
    lemma_none_means_no_match(events, EventKind::AddPrimaryKey, new_column_name@);
    lemma_push_not_matching(events, x, EventKind::AddPrimaryKey, new_column_name@);
}

/// Two renames of a column in a row are merged into one rename from the
/// first name to the last, when no change about these names was pending.
pub proof fn law_renames_merge(
    events: Seq<TableChangeEvents>,
    columns: Seq<Column>,
    current: Option<String>,
    first: String,
    second: String,
    third: String,
)
    requires
        first@ != second@,
        second@ != third@,
        first@ != third@,
        first_index(events, EventKind::ChangeColumnDataType, first@) is None,
        first_index(events, EventKind::RenameColumnTo, first@) is None,
        first_index(events, EventKind::AddColumn, first@) is None,
        first_index(events, EventKind::AddPrimaryKey, first@) is None,
        first_index(events, EventKind::ChangeColumnDataType, second@) is None,
        first_index(events, EventKind::RenameColumnTo, second@) is None,
        first_index(events, EventKind::AddPrimaryKey, second@) is None,
    ensures
        spec_add_table_change_event(
            spec_add_table_change_event(
                events,
                columns,
                current,
                TableChangeEvents::ChangeColumnName(first, second),
            ),
            columns,
            current,
            TableChangeEvents::ChangeColumnName(second, third),
        ) == events.push(TableChangeEvents::ChangeColumnName(first, third)),
{
    let x = TableChangeEvents::ChangeColumnName(first, second);
    let y = TableChangeEvents::ChangeColumnName(first, third);
    lemma_push_not_matching(events, x, EventKind::AddPrimaryKey, first@);
    lemma_push_not_matching(events, x, EventKind::ChangeColumnDataType, second@);
    lemma_push_matching(events, x, EventKind::RenameColumnTo, second@);
    let e1 = events.push(x);
    let e2 = e1.push(y).remove(events.len() as int);
    assert(e2 =~= events.push(y));
    lemma_push_not_matching(events, y, EventKind::AddPrimaryKey, second@);
}

/// The log holds at most one pending rename of the table.
pub open spec fn at_most_one_table_rename(events: Seq<TableChangeEvents>) -> bool {
    forall|i: int, j: int|
        0 <= i < events.len() && 0 <= j < events.len() && (#[trigger] events[i]) is ChangeTableName
            && (#[trigger] events[j]) is ChangeTableName ==> i == j
}

proof fn lemma_remove_keeps(s: Seq<TableChangeEvents>, k: int)
    requires
        at_most_one_table_rename(s),
        0 <= k < s.len(),
    ensures
        at_most_one_table_rename(s.remove(k)),
{
    let r = s.remove(k);
    assert forall|i: int, j: int|
        0 <= i < r.len() && 0 <= j < r.len() && (#[trigger] r[i]) is ChangeTableName
            && (#[trigger] r[j]) is ChangeTableName implies i == j by {
        let si = if i < k { i } else { i + 1 };
        let sj = if j < k { j } else { j + 1 };
        assert(r[i] == s[si]);
        assert(r[j] == s[sj]);
    }
}

proof fn lemma_push_keeps(s: Seq<TableChangeEvents>, x: TableChangeEvents)
    requires
        at_most_one_table_rename(s),
        !(x is ChangeTableName),
    ensures
        at_most_one_table_rename(s.push(x)),
{
    let r = s.push(x);
    assert forall|i: int, j: int|
        0 <= i < r.len() && 0 <= j < r.len() && (#[trigger] r[i]) is ChangeTableName
            && (#[trigger] r[j]) is ChangeTableName implies i == j by {
        if i < s.len() {
            assert(r[i] == s[i]);
        }
        if j < s.len() {
            assert(r[j] == s[j]);
        }
    }
}

proof fn lemma_remove_first_keeps(s: Seq<TableChangeEvents>, kind: EventKind, name: Seq<char>)
    requires
        at_most_one_table_rename(s),
    ensures
        at_most_one_table_rename(remove_first(s, kind, name)),
{
    if let Some(i) = first_index(s, kind, name) {
        assert(is_first_match(s, kind, name, i));
        lemma_remove_keeps(s, i);
    }
}

proof fn lemma_once_change_table_name(events: Seq<TableChangeEvents>, current: Option<String>, n: String)
    requires
        at_most_one_table_rename(events),
    ensures
        at_most_one_table_rename(spec_change_table_name(events, current, n)),
{
    match first_index(events, EventKind::ChangeTableName, Seq::empty()) {
        Some(i) => {
            assert(is_first_match(events, EventKind::ChangeTableName, Seq::empty(), i));
            let r = events.remove(i);
            lemma_remove_keeps(events, i);
            assert forall|j: int| 0 <= j < r.len() implies !(#[trigger] r[j] is ChangeTableName) by {
                let sj = if j < i { j } else { j + 1 };
                assert(r[j] == events[sj]);
            }
            let p = r.push(TableChangeEvents::ChangeTableName(n));
            assert forall|a: int, b: int|
                0 <= a < p.len() && 0 <= b < p.len() && (#[trigger] p[a]) is ChangeTableName
                    && (#[trigger] p[b]) is ChangeTableName implies a == b by {
                if a < r.len() {
                    assert(p[a] == r[a]);
                }
                if b < r.len() {
                    assert(p[b] == r[b]);
                }
            }
        },
        None => {
            lemma_none_means_no_match(events, EventKind::ChangeTableName, Seq::empty());
            let p = events.push(TableChangeEvents::ChangeTableName(n));
            assert forall|a: int, b: int|
                0 <= a < p.len() && 0 <= b < p.len() && (#[trigger] p[a]) is ChangeTableName
                    && (#[trigger] p[b]) is ChangeTableName implies a == b by {
                if a < events.len() {
                    assert(p[a] == events[a]);
                    assert(matches_kind(events[a], EventKind::ChangeTableName, Seq::empty()));
                }
                if b < events.len() {
                    assert(p[b] == events[b]);
                    assert(matches_kind(events[b], EventKind::ChangeTableName, Seq::empty()));
                }
            }
        },
    }
}

proof fn lemma_once_add_column(events: Seq<TableChangeEvents>, columns: Seq<Column>, c: String, d: DataType)
    requires
        at_most_one_table_rename(events),
    ensures
        at_most_one_table_rename(spec_add_column(events, columns, c, d)),
{
    match first_index(events, EventKind::RemoveColumn, c@) {
        Some(i) => {
            assert(is_first_match(events, EventKind::RemoveColumn, c@, i));
            lemma_remove_keeps(events, i);
            lemma_push_keeps(events.remove(i), TableChangeEvents::ChangeColumnDataType(c, d));
        },
        None => {
            lemma_push_keeps(events, TableChangeEvents::AddColumn(c, d));
        },
    }
}

proof fn lemma_once_change_datatype(events: Seq<TableChangeEvents>, columns: Seq<Column>, c: String, d: DataType)
    requires
        at_most_one_table_rename(events),
    ensures
        at_most_one_table_rename(spec_change_column_datatype(events, columns, c, d)),
{
    match first_index(events, EventKind::ChangeColumnDataType, c@) {
        Some(i) => {
            assert(is_first_match(events, EventKind::ChangeColumnDataType, c@, i));
            lemma_remove_keeps(events, i);
            lemma_push_keeps(events.remove(i), TableChangeEvents::ChangeColumnDataType(c, d));
        },
        None => match first_index(events, EventKind::AddColumn, c@) {
            Some(i) => {
                assert(is_first_match(events, EventKind::AddColumn, c@, i));
                lemma_remove_keeps(events, i);
                lemma_push_keeps(events.remove(i), TableChangeEvents::AddColumn(c, d));
            },
            None => {
                lemma_push_keeps(events, TableChangeEvents::ChangeColumnDataType(c, d));
            },
        },
    }
}

proof fn lemma_once_change_column_name(
    events: Seq<TableChangeEvents>,
    columns: Seq<Column>,
    c: String,
    n: String,
)
    requires
        at_most_one_table_rename(events),
    ensures
        at_most_one_table_rename(spec_change_column_name(events, columns, c, n)),
{
    if c@ != n@ {
        let e1 = spec_rename_datatype_change(events, c@, n);
        match first_index(events, EventKind::ChangeColumnDataType, c@) {
            Some(i) => {
                assert(is_first_match(events, EventKind::ChangeColumnDataType, c@, i));
                lemma_remove_keeps(events, i);
                if let TableChangeEvents::ChangeColumnDataType(_, d) = events[i] {
                    lemma_push_keeps(events.remove(i), TableChangeEvents::ChangeColumnDataType(n, d));
                }
            },
            None => {},
        }
        assert(at_most_one_table_rename(e1));
        let e2 = match first_index(e1, EventKind::RenameColumnTo, c@) {
            Some(i) => spec_update_rename(e1, i, n),
            None => match first_index(e1, EventKind::AddColumn, c@) {
                Some(i) => spec_update_added_column(e1, columns, i, n),
                None => e1.push(TableChangeEvents::ChangeColumnName(c, n)),
            },
        };
        match first_index(e1, EventKind::RenameColumnTo, c@) {
            Some(i) => {
                assert(is_first_match(e1, EventKind::RenameColumnTo, c@, i));
                if let TableChangeEvents::ChangeColumnName(o, _) = e1[i] {
                    let x = TableChangeEvents::ChangeColumnName(o, n);
                    lemma_push_keeps(e1, x);
                    lemma_remove_keeps(e1.push(x), i);
                }
                lemma_remove_keeps(e1, i);
            },
            None => match first_index(e1, EventKind::AddColumn, c@) {
                Some(i) => {
                    assert(is_first_match(e1, EventKind::AddColumn, c@, i));
                    lemma_remove_keeps(e1, i);
                    if let TableChangeEvents::AddColumn(_, d) = e1[i] {
                        lemma_once_add_column(e1.remove(i), columns, n, d);
                    }
                },
                None => {
                    lemma_push_keeps(e1, TableChangeEvents::ChangeColumnName(c, n));
                },
            },
        }
        assert(at_most_one_table_rename(e2));
        match first_index(e2, EventKind::AddPrimaryKey, c@) {
            Some(i) => {
                assert(is_first_match(e2, EventKind::AddPrimaryKey, c@, i));
                lemma_remove_keeps(e2, i);
                lemma_push_keeps(e2.remove(i), TableChangeEvents::AddPrimaryKey(n));
            },
            None => {},
        }
    }
}

proof fn lemma_once_remove_column(events: Seq<TableChangeEvents>, c: String)
    requires
        at_most_one_table_rename(events),
    ensures
        at_most_one_table_rename(spec_remove_column(events, c)),
{
    let e1 = remove_first(events, EventKind::AddPrimaryKey, c@);
    lemma_remove_first_keeps(events, EventKind::AddPrimaryKey, c@);
    let e2 = remove_first(e1, EventKind::AddForeignKey, c@);
    lemma_remove_first_keeps(e1, EventKind::AddForeignKey, c@);
    let e3 = remove_first(e2, EventKind::RemovePrimaryKey, c@);
    lemma_remove_first_keeps(e2, EventKind::RemovePrimaryKey, c@);
    match first_index(e3, EventKind::AddColumn, c@) {
        Some(i) => {
            assert(is_first_match(e3, EventKind::AddColumn, c@, i));
            lemma_remove_keeps(e3, i);
        },
        None => match first_index(e3, EventKind::ChangeColumnDataType, c@) {
            Some(i) => {
                assert(is_first_match(e3, EventKind::ChangeColumnDataType, c@, i));
                lemma_remove_keeps(e3, i);
                lemma_push_keeps(e3.remove(i), TableChangeEvents::RemoveColumn(c));
            },
            None => match first_index(e3, EventKind::RenameColumnTo, c@) {
                Some(i) => {
                    assert(is_first_match(e3, EventKind::RenameColumnTo, c@, i));
                    lemma_remove_keeps(e3, i);
                    if let TableChangeEvents::ChangeColumnName(o, _) = e3[i] {
                        lemma_push_keeps(e3.remove(i), TableChangeEvents::RemoveColumn(o));
                    }
                },
                None => {
                    lemma_push_keeps(e3, TableChangeEvents::RemoveColumn(c));
                },
            },
        },
    }
}

proof fn lemma_once_single(events: Seq<TableChangeEvents>, kind: EventKind, name: Seq<char>, x: TableChangeEvents)
    requires
        at_most_one_table_rename(events),
        !(x is ChangeTableName),
    ensures
        at_most_one_table_rename(
            match first_index(events, kind, name) {
                Some(i) => events.remove(i),
                None => events.push(x),
            },
        ),
        match first_index(events, kind, name) {
            Some(i) => at_most_one_table_rename(events.remove(i).push(x)),
            None => true,
        },
{
    match first_index(events, kind, name) {
        Some(i) => {
            assert(is_first_match(events, kind, name, i));
            lemma_remove_keeps(events, i);
            lemma_push_keeps(events.remove(i), x);
        },
        None => {
            lemma_push_keeps(events, x);
        },
    }
}

/// At most one rename of the table is ever pending: merging any change into
/// a log that holds at most one keeps it so.
pub proof fn law_at_most_one_table_rename(
    events: Seq<TableChangeEvents>,
    columns: Seq<Column>,
    current: Option<String>,
    event: TableChangeEvents,
)
    requires
        at_most_one_table_rename(events),
    ensures
        at_most_one_table_rename(spec_add_table_change_event(events, columns, current, event)),
{
    match event {
        TableChangeEvents::ChangeTableName(n) => lemma_once_change_table_name(events, current, n),
        TableChangeEvents::ChangeColumnDataType(c, d) => lemma_once_change_datatype(events, columns, c, d),
        TableChangeEvents::ChangeColumnName(c, n) => lemma_once_change_column_name(events, columns, c, n),
        TableChangeEvents::RemoveColumn(c) => lemma_once_remove_column(events, c),
        TableChangeEvents::AddColumn(c, d) => lemma_once_add_column(events, columns, c, d),
        TableChangeEvents::AddForeignKey(fk) => {
            lemma_once_single(events, EventKind::AddForeignKey, fk.column_name@, TableChangeEvents::AddForeignKey(fk));
            if first_index(events, EventKind::AddForeignKey, fk.column_name@) is None {
                lemma_once_single(events, EventKind::RemoveForeignKey, fk.column_name@, TableChangeEvents::AddForeignKey(fk));
            }
        },
        TableChangeEvents::RemoveForeignKey(c) => lemma_once_single(events, EventKind::AddForeignKey, c@, TableChangeEvents::RemoveForeignKey(c)),
        TableChangeEvents::AddPrimaryKey(c) => lemma_once_single(events, EventKind::RemovePrimaryKey, c@, TableChangeEvents::AddPrimaryKey(c)),
        TableChangeEvents::RemovePrimaryKey(c) => lemma_once_single(events, EventKind::AddPrimaryKey, c@, TableChangeEvents::RemovePrimaryKey(c)),
    }
}

proof fn lemma_final_name_push(current: Seq<char>, events: Seq<TableChangeEvents>, e: TableChangeEvents)
    ensures
        spec_final_table_name(current, events.push(e)) == spec_name_after(
            spec_final_table_name(current, events),
            e,
        ),
    decreases events.len(),
{
    if events.len() == 0 {
        assert(events.push(e).drop_first() =~= Seq::<TableChangeEvents>::empty());
        assert(events.push(e)[0] == e);
        assert(spec_final_table_name(spec_name_after(current, e), Seq::<TableChangeEvents>::empty())
            == spec_name_after(current, e));
    } else {
        assert(events.push(e).drop_first() =~= events.drop_first().push(e));
        assert(events.push(e)[0] == events[0]);
        lemma_final_name_push(spec_name_after(current, events[0]), events.drop_first(), e);
    }
}

/// The name the table is left with after its pending changes are applied is
/// the name that the generated statements end up addressing.
pub proof fn law_new_table_name_matches_statements(table_name: String, events: Seq<TableChangeEvents>)
    ensures
        spec_table_name_after(Some(table_name), events) is Some,
        spec_table_name_after(Some(table_name), events).unwrap()@ == spec_final_table_name(
            table_name@,
            events,
        ),
    decreases events.len(),
{
    if events.len() > 0 {
        law_new_table_name_matches_statements(table_name, events.drop_last());
        assert(events.drop_last().push(events.last()) =~= events);
        lemma_final_name_push(table_name@, events.drop_last(), events.last());
    }
}


// ---------------------------------------------------------------------------
// The table keeps a primary key
// ---------------------------------------------------------------------------

/// How far the table is from being left without a primary key once the
/// pending changes are applied: its key columns and the pending additions of
/// a key, less the pending changes that take a key away. The table keeps a
/// key when this is positive.
pub open spec fn key_margin(columns: Seq<Column>, events: Seq<TableChangeEvents>) -> int {
    let keys = spec_primary_key_column_names(columns);
    keys.len() + count_key_additions(events) - count_key_removals(keys, events)
}

proof fn lemma_counts_push(keys: Seq<String>, s: Seq<TableChangeEvents>, e: TableChangeEvents)
    ensures
        count_key_additions(s.push(e)) == count_key_additions(s) + if e is AddPrimaryKey {
            1int
        } else {
            0int
        },
        count_key_removals(keys, s.push(e)) == count_key_removals(keys, s) + if removes_key(keys, e) {
            1int
        } else {
            0int
        },
{
    assert(s.push(e).drop_last() =~= s);
}

proof fn lemma_counts_remove(keys: Seq<String>, s: Seq<TableChangeEvents>, i: int)
    requires
        0 <= i < s.len(),
    ensures
        count_key_additions(s.remove(i)) + (if s[i] is AddPrimaryKey {
            1int
        } else {
            0int
        }) == count_key_additions(s),
        count_key_removals(keys, s.remove(i)) + (if removes_key(keys, s[i]) {
            1int
        } else {
            0int
        }) == count_key_removals(keys, s),
    decreases s.len(),
{
    if i == s.len() - 1 {
        assert(s.remove(i) =~= s.drop_last());
    } else {
        lemma_counts_remove(keys, s.drop_last(), i);
        assert(s.remove(i).drop_last() =~= s.drop_last().remove(i));
        assert(s.remove(i).last() == s.last());
        assert(s.drop_last()[i] == s[i]);
    }
}

/// Giving the table the column `id` as its key, as is done before changes are
/// submitted when the table would be left without a key, raises the margin
/// of keys by at least one: a table left with exactly no key keeps one.
pub proof fn law_key_column_adds_a_key(
    events: Seq<TableChangeEvents>,
    columns: Seq<Column>,
    current: Option<String>,
    id: String,
)
    ensures
        key_margin(columns, spec_with_key_column(events, columns, current, id)) >= key_margin(
            columns,
            events,
        ) + 1,
        key_margin(columns, events) >= 0 ==> key_margin(
            columns,
            spec_with_key_column(events, columns, current, id),
        ) > 0,
{
    let keys = spec_primary_key_column_names(columns);
    let e1 = spec_add_column(events, columns, id, DataType::INTEGER);
    assert(key_margin(columns, e1) >= key_margin(columns, events)) by {
        match first_index(events, EventKind::RemoveColumn, id@) {
            Some(i) => {
                assert(is_first_match(events, EventKind::RemoveColumn, id@, i));
                lemma_counts_remove(keys, events, i);
                match spec_column_datatype(columns, id@) {
                    Some(original) => {
                        if original != DataType::INTEGER {
                            lemma_counts_push(
                                keys,
                                events.remove(i),
                                TableChangeEvents::ChangeColumnDataType(id, DataType::INTEGER),
                            );
                        }
                    },
                    None => {},
                }
            },
            None => {
                lemma_counts_push(keys, events, TableChangeEvents::AddColumn(id, DataType::INTEGER));
            },
        }
    }
    let e2 = spec_add_primary_key(e1, id);
    assert(key_margin(columns, e2) == key_margin(columns, e1) + 1) by {
        match first_index(e1, EventKind::RemovePrimaryKey, id@) {
            Some(i) => {
                assert(is_first_match(e1, EventKind::RemovePrimaryKey, id@, i));
                lemma_counts_remove(keys, e1, i);
            },
            None => {
                lemma_counts_push(keys, e1, TableChangeEvents::AddPrimaryKey(id));
            },
        }
    }
}


/// Submitting the changes of a table applies a log whose margin of primary
/// keys is no lower than that of the pending changes; and unless more
/// changes that take a key away were pending than the table has keys and
/// pending key additions, the applied log leaves the table a primary key.
pub proof fn law_submitted_changes_keep_a_key(before: TableInfo, after: TableInfo, queries: Seq<Seq<char>>)
    requires
        spec_table_updated(before, after, queries),
    ensures
        exists|pending: TableInfo|
            {
                &&& pending.table_name == before.table_name
                &&& pending.columns_info == before.columns_info
                &&& queries == pending.spec_pending_queries()
                &&& key_margin(before.columns_info@, pending.events()) >= key_margin(
                    before.columns_info@,
                    before.events(),
                )
                &&& (key_margin(before.columns_info@, before.events()) >= 0
                    ==> pending.spec_at_least_one_primary_key())
            },
{
    let pending = choose|pending: TableInfo|
        {
            &&& pending.table_name == before.table_name
            &&& pending.columns_info == before.columns_info
            &&& (before.spec_at_least_one_primary_key() ==> pending.events() == before.events())
            &&& (!before.spec_at_least_one_primary_key() ==> exists|id: String|
                id@ == "id"@ && pending.events() == spec_with_key_column(
                    before.events(),
                    before.columns_info@,
                    before.table_name,
                    id,
                ))
            &&& queries == pending.spec_pending_queries()
            &&& after.table_name == spec_table_name_after(pending.table_name, pending.events())
        };
    if !before.spec_at_least_one_primary_key() {
        let id = choose|id: String|
            id@ == "id"@ && pending.events() == spec_with_key_column(
                before.events(),
                before.columns_info@,
                before.table_name,
                id,
            );
        law_key_column_adds_a_key(before.events(), before.columns_info@, before.table_name, id);
    }
}


// ---------------------------------------------------------------------------
// A column added and removed again, with its pending keys
// ---------------------------------------------------------------------------

/// The log after the changes `changes` are merged into `events` one by one.
pub open spec fn apply_changes(
    events: Seq<TableChangeEvents>,
    columns: Seq<Column>,
    current: Option<String>,
    changes: Seq<TableChangeEvents>,
) -> Seq<TableChangeEvents>
    decreases changes.len(),
{
    if changes.len() == 0 {
        events
    } else {
        apply_changes(
            spec_add_table_change_event(events, columns, current, changes[0]),
            columns,
            current,
            changes.drop_first(),
        )
    }
}

proof fn lemma_apply_push(
    events: Seq<TableChangeEvents>,
    columns: Seq<Column>,
    current: Option<String>,
    changes: Seq<TableChangeEvents>,
    x: TableChangeEvents,
)
    ensures
        apply_changes(events, columns, current, changes.push(x)) == spec_add_table_change_event(
            apply_changes(events, columns, current, changes),
            columns,
            current,
            x,
        ),
    decreases changes.len(),
{
    if changes.len() == 0 {
        let rest = changes.push(x).drop_first();
        assert(rest =~= Seq::<TableChangeEvents>::empty());
        assert(changes.push(x)[0] == x);
        let after = spec_add_table_change_event(events, columns, current, x);
        assert(apply_changes(after, columns, current, rest) == after);
    } else {
        assert(changes.push(x).drop_first() =~= changes.drop_first().push(x));
        assert(changes.push(x)[0] == changes[0]);
        lemma_apply_push(
            spec_add_table_change_event(events, columns, current, changes[0]),
            columns,
            current,
            changes.drop_first(),
            x,
        );
    }
}

/// Looking a change up in `e + t`, when `e` holds none of its kind about
/// `name`, finds it where it stands in `t`.
proof fn lemma_first_index_after(e: Seq<TableChangeEvents>, t: Seq<TableChangeEvents>, kind: EventKind, name: Seq<char>)
    requires
        first_index(e, kind, name) is None,
    ensures
        match first_index(t, kind, name) {
            Some(j) => first_index(e + t, kind, name) == Some(e.len() + j),
            None => first_index(e + t, kind, name) is None,
        },
{
    lemma_none_means_no_match(e, kind, name);
    match first_index(t, kind, name) {
        Some(j) => {
            assert(is_first_match(t, kind, name, j));
            assert forall|m: int| 0 <= m < e.len() + j implies !matches_kind(#[trigger] (e + t)[m], kind, name) by {
                if m < e.len() {
                    assert((e + t)[m] == e[m]);
                } else {
                    assert((e + t)[m] == t[m - e.len()]);
                }
            }
            assert((e + t)[e.len() + j] == t[j]);
            lemma_first_index_is(e + t, kind, name, e.len() + j);
        },
        None => {
            lemma_none_means_no_match(t, kind, name);
            assert forall|m: int| 0 <= m < (e + t).len() implies !matches_kind(#[trigger] (e + t)[m], kind, name) by {
                if m < e.len() {
                    assert((e + t)[m] == e[m]);
                } else {
                    assert((e + t)[m] == t[m - e.len()]);
                }
            }
            lemma_first_index_none(e + t, kind, name);
        },
    }
}

/// Removing the first change of a kind from `e + t`, when `e` holds none.
proof fn lemma_remove_first_after(e: Seq<TableChangeEvents>, t: Seq<TableChangeEvents>, kind: EventKind, name: Seq<char>)
    requires
        first_index(e, kind, name) is None,
    ensures
        remove_first(e + t, kind, name) == e + remove_first(t, kind, name),
{
    lemma_first_index_after(e, t, kind, name);
    match first_index(t, kind, name) {
        Some(j) => {
            assert(is_first_match(t, kind, name, j));
            assert((e + t).remove(e.len() + j) =~= e + t.remove(j));
        },
        None => {},
    }
}

/// Appending a change to `e + t` that matches nothing of `t` of `kind`.
proof fn lemma_tail_index(t: Seq<TableChangeEvents>, kind: EventKind, name: Seq<char>, j: int)
    requires
        0 <= j < t.len(),
        matches_kind(t[j], kind, name),
        forall|m: int| 0 <= m < j ==> !matches_kind(#[trigger] t[m], kind, name),
    ensures
        first_index(t, kind, name) == Some(j),
        remove_first(t, kind, name) == t.remove(j),
{
    lemma_first_index_is(t, kind, name, j);
}

proof fn lemma_tail_none(t: Seq<TableChangeEvents>, kind: EventKind, name: Seq<char>)
    requires
        forall|m: int| 0 <= m < t.len() ==> !matches_kind(#[trigger] t[m], kind, name),
    ensures
        first_index(t, kind, name) is None,
        remove_first(t, kind, name) == t,
{
    lemma_first_index_none(t, kind, name);
}

/// Appending a key change of the new column `c` to a log `e + t` in which
/// nothing cancels it.
proof fn lemma_append_key(
    e: Seq<TableChangeEvents>,
    columns: Seq<Column>,
    current: Option<String>,
    t: Seq<TableChangeEvents>,
    x: TableChangeEvents,
    c: String,
)
    requires
        apply_changes(e, columns, current, t) == e + t,
        first_index(e, EventKind::RemovePrimaryKey, c@) is None,
        first_index(e, EventKind::AddForeignKey, c@) is None,
        first_index(e, EventKind::RemoveForeignKey, c@) is None,
        x is AddPrimaryKey || x is AddForeignKey,
        x matches TableChangeEvents::AddForeignKey(fk) ==> fk.column_name@ == c@,
        x matches TableChangeEvents::AddPrimaryKey(k) ==> k@ == c@,
        forall|m: int| 0 <= m < t.len() ==> !(#[trigger] t[m] is RemovePrimaryKey) && !(t[m] is RemoveForeignKey),
        x is AddForeignKey ==> forall|m: int| 0 <= m < t.len() ==> !(#[trigger] t[m] is AddForeignKey),
    ensures
        apply_changes(e, columns, current, t.push(x)) == e + t.push(x),
{
    lemma_apply_push(e, columns, current, t, x);
    lemma_tail_none(t, EventKind::RemovePrimaryKey, c@);
    lemma_tail_none(t, EventKind::RemoveForeignKey, c@);
    lemma_first_index_after(e, t, EventKind::RemovePrimaryKey, c@);
    lemma_first_index_after(e, t, EventKind::RemoveForeignKey, c@);
    if x is AddForeignKey {
        lemma_tail_none(t, EventKind::AddForeignKey, c@);
        lemma_first_index_after(e, t, EventKind::AddForeignKey, c@);
    }
    assert((e + t).push(x) =~= e + t.push(x));
}

/// The pending key changes of a new column `c` between its addition and its
/// removal: a primary key if `with_key`, a foreign key if there is one, the
/// primary key first if `key_first`.
pub open spec fn pending_key_changes(
    c: String,
    with_key: bool,
    foreign_key: Option<ColumnForeignKey>,
    key_first: bool,
) -> Seq<TableChangeEvents> {
    let k = if with_key {
        seq![TableChangeEvents::AddPrimaryKey(c)]
    } else {
        Seq::empty()
    };
    let f = match foreign_key {
        Some(fk) => seq![TableChangeEvents::AddForeignKey(fk)],
        None => Seq::empty(),
    };
    if key_first {
        k + f
    } else {
        f + k
    }
}

/// Adding a column, giving it a primary key and/or a foreign key, and then
/// removing the column leaves the log as it was, when no change of that
/// column's name was pending: the removal takes its pending keys with it.
pub proof fn law_added_column_removed_with_its_keys(
    events: Seq<TableChangeEvents>,
    columns: Seq<Column>,
    current: Option<String>,
    c: String,
    data_type: DataType,
    with_key: bool,
    foreign_key: Option<ColumnForeignKey>,
    key_first: bool,
)
    requires
        first_index(events, EventKind::AddColumn, c@) is None,
        first_index(events, EventKind::RemoveColumn, c@) is None,
        first_index(events, EventKind::AddPrimaryKey, c@) is None,
        first_index(events, EventKind::RemovePrimaryKey, c@) is None,
        first_index(events, EventKind::AddForeignKey, c@) is None,
        first_index(events, EventKind::RemoveForeignKey, c@) is None,
        foreign_key matches Some(fk) ==> fk.column_name@ == c@,
    ensures
        apply_changes(
            events,
            columns,
            current,
            seq![TableChangeEvents::AddColumn(c, data_type)] + pending_key_changes(
                c,
                with_key,
                foreign_key,
                key_first,
            ) + seq![TableChangeEvents::RemoveColumn(c)],
        ) == events,
{
    let ac = TableChangeEvents::AddColumn(c, data_type);
    let pk = TableChangeEvents::AddPrimaryKey(c);
    let rc = TableChangeEvents::RemoveColumn(c);
    let keys = pending_key_changes(c, with_key, foreign_key, key_first);
    let e = events;
    // The column is appended.
    assert(spec_add_table_change_event(e, columns, current, ac) == e + seq![ac]) by {
        assert(e.push(ac) =~= e + seq![ac]);
    }
    // Each pending key change is appended after it.
    let t0 = seq![ac];
    assert(apply_changes(e, columns, current, t0) == e + t0) by {
        lemma_apply_push(e, columns, current, Seq::empty(), ac);
        assert(Seq::<TableChangeEvents>::empty().push(ac) =~= t0);
    }
    let tail = if keys.len() == 0 {
        t0
    } else if keys.len() == 1 {
        t0.push(keys[0])
    } else {
        t0.push(keys[0]).push(keys[1])
    };
    let changes = tail;
    if keys.len() >= 1 {
        lemma_append_key(e, columns, current, t0, keys[0], c);
    }
    if keys.len() == 2 {
        lemma_append_key(e, columns, current, t0.push(keys[0]), keys[1], c);
    }
    assert(tail =~= seq![ac] + keys);
    let all = seq![ac] + keys + seq![rc];
    assert(all =~= changes.push(rc));
    lemma_apply_push(e, columns, current, changes, rc);
    // The removal takes the pending keys with it, then the addition.
    let t1 = remove_first(tail, EventKind::AddPrimaryKey, c@);
    let t2 = remove_first(t1, EventKind::AddForeignKey, c@);
    lemma_remove_first_after(e, tail, EventKind::AddPrimaryKey, c@);
    lemma_remove_first_after(e, t1, EventKind::AddForeignKey, c@);
    lemma_remove_first_after(e, t2, EventKind::RemovePrimaryKey, c@);
    assert(t2 == seq![ac]) by {
        if with_key {
            if key_first {
                lemma_tail_index(tail, EventKind::AddPrimaryKey, c@, 1);
            } else {
                match foreign_key {
                    Some(fk) => lemma_tail_index(tail, EventKind::AddPrimaryKey, c@, 2),
                    None => lemma_tail_index(tail, EventKind::AddPrimaryKey, c@, 1),
                }
            }
        } else {
            lemma_tail_none(tail, EventKind::AddPrimaryKey, c@);
        }
        match foreign_key {
            Some(fk) => {
                lemma_tail_index(t1, EventKind::AddForeignKey, c@, 1);
                assert(t1.remove(1) =~= seq![ac]);
            },
            None => {
                lemma_tail_none(t1, EventKind::AddForeignKey, c@);
                assert(t1 =~= seq![ac]);
            },
        }
    }
    lemma_tail_none(t2, EventKind::RemovePrimaryKey, c@);
    lemma_tail_index(t2, EventKind::AddColumn, c@, 0);
    lemma_first_index_after(e, t2, EventKind::AddColumn, c@);
    assert((e + t2).remove(e.len() as int) =~= e);
}


// ---------------------------------------------------------------------------
// The log of row edits
// ---------------------------------------------------------------------------

/// Whether two pending row changes both give new values in the same row.
pub open spec fn same_row_change(a: TableDataChangeEvents, b: TableDataChangeEvents) -> bool {
    match b {
        TableDataChangeEvents::ModifyRowColumnValue(v) => modifies_row(a, v.conditions@),
        _ => false,
    }
}

/// Whether the log holds at most one pending new value per row.
pub open spec fn one_edit_per_row(log: Seq<TableDataChangeEvents>) -> bool {
    forall|i: int, j: int| 0 <= i < j < log.len() ==> !same_row_change(#[trigger] log[i], #[trigger] log[j])
}

/// Whether every pending new value of `log` finds its row by `n` values, as
/// all rows of one table are found by the values of its key columns.
pub open spec fn rows_found_by(log: Seq<TableDataChangeEvents>, n: nat) -> bool {
    forall|i: int|
        0 <= i < log.len() ==> (#[trigger] log[i] matches TableDataChangeEvents::ModifyRowColumnValue(v)
            ==> v.conditions@.len() == n)
}

/// When some change gives a cell of the row a new value, the first one is found.
proof fn lemma_first_row_change_exists(log: Seq<TableDataChangeEvents>, conditions: Seq<crate::row_changes::ColumnValue>, j: int)
    requires
        0 <= j < log.len(),
        modifies_row(log[j], conditions),
    ensures
        exists|i: int| is_first_row_change(log, conditions, i),
    decreases j,
{
    if forall|m: int| 0 <= m < j ==> !modifies_row(#[trigger] log[m], conditions) {
        assert(is_first_row_change(log, conditions, j));
    } else {
        let m = choose|m: int| 0 <= m < j && !!modifies_row(#[trigger] log[m], conditions);
        lemma_first_row_change_exists(log, conditions, m);
    }
}

/// Recording a row change keeps at most one pending new value per row, when
/// every row is found by the same number of values: a new value in a row
/// replaces the one pending for that row (the latest edit wins).
pub proof fn law_one_edit_per_row(log: Seq<TableDataChangeEvents>, e: TableDataChangeEvents, n: nat)
    requires
        one_edit_per_row(log),
        rows_found_by(log, n),
        rows_found_by(seq![e], n),
    ensures
        one_edit_per_row(spec_add_row_change(log, e)),
{
    let after = spec_add_row_change(log, e);
    match e {
        TableDataChangeEvents::ModifyRowColumnValue(v) => {
            assert(seq![e][0] == e);
            let c = v.conditions@;
            if exists|i: int| is_first_row_change(log, c, i) {
                let k = choose|i: int| is_first_row_change(log, c, i);
                assert forall|i: int, j: int| 0 <= i < j < after.len() implies !same_row_change(
                    #[trigger] after[i],
                    #[trigger] after[j],
                ) by {
                    let ii = if i < k { i } else { i + 1 };
                    assert(after[i] == log[ii]);
                    if j == after.len() - 1 {
                        assert(after[j] == e);
                        if same_row_change(log[ii], e) {
                            assert(log[ii] is ModifyRowColumnValue);
                            assert(log[k] is ModifyRowColumnValue);
                            let a = log[ii]->ModifyRowColumnValue_0.conditions@;
                            let b = log[k]->ModifyRowColumnValue_0.conditions@;
                            assert(a.len() == n && b.len() == n);
                            assert(same_row_values(b, a)) by {
                                assert forall|m: int| 0 <= m < b.len() && 0 <= m < a.len() implies (#[trigger] b[m]).value@
                                    == (#[trigger] a[m]).value@ by {
                                    assert(c[m].value@ == a[m].value@);
                                    assert(c[m].value@ == b[m].value@);
                                }
                            }
                            assert(same_row_values(a, b)) by {
                                assert forall|m: int| 0 <= m < a.len() && 0 <= m < b.len() implies (#[trigger] a[m]).value@
                                    == (#[trigger] b[m]).value@ by {
                                    assert(c[m].value@ == a[m].value@);
                                    assert(c[m].value@ == b[m].value@);
                                }
                            }
                            if ii < k {
                                assert(!same_row_change(log[ii], log[k]));
                            } else {
                                assert(!same_row_change(log[k], log[ii]));
                            }
                        }
                    } else {
                        let jj = if j < k { j } else { j + 1 };
                        assert(after[j] == log[jj]);
                        assert(!same_row_change(log[ii], log[jj]));
                    }
                }
            } else {
                assert forall|i: int, j: int| 0 <= i < j < after.len() implies !same_row_change(
                    #[trigger] after[i],
                    #[trigger] after[j],
                ) by {
                    assert(after[i] == log[i]);
                    if j == after.len() - 1 {
                        if same_row_change(log[i], e) {
                            lemma_first_row_change_exists(log, c, i);
                        }
                    } else {
                        assert(after[j] == log[j]);
                    }
                }
            }
        },
        _ => {
            assert forall|i: int, j: int| 0 <= i < j < after.len() implies !same_row_change(
                #[trigger] after[i],
                #[trigger] after[j],
            ) by {
                assert(after[i] == log[i]);
                if j < log.len() {
                    assert(after[j] == log[j]);
                }
            }
        },
    }
}


// ---------------------------------------------------------------------------
// What single changes do to the log
// ---------------------------------------------------------------------------

/// Taking a change out of a log keeps any other kind of change absent.
proof fn lemma_remove_none(s: Seq<TableChangeEvents>, k: int, kind: EventKind, name: Seq<char>)
    requires
        first_index(s, kind, name) is None,
        0 <= k < s.len(),
    ensures
        first_index(s.remove(k), kind, name) is None,
{
    lemma_none_means_no_match(s, kind, name);
    assert forall|j: int| 0 <= j < s.remove(k).len() implies !matches_kind(#[trigger] s.remove(k)[j], kind, name) by {
        if j < k {
            assert(s.remove(k)[j] == s[j]);
        } else {
            assert(s.remove(k)[j] == s[j + 1]);
        }
    }
    lemma_first_index_none(s.remove(k), kind, name);
}

proof fn lemma_remove_first_none(
    s: Seq<TableChangeEvents>,
    removed: EventKind,
    removed_name: Seq<char>,
    kind: EventKind,
    name: Seq<char>,
)
    requires
        first_index(s, kind, name) is None,
    ensures
        first_index(remove_first(s, removed, removed_name), kind, name) is None,
{
    match first_index(s, removed, removed_name) {
        Some(i) => {
            assert(is_first_match(s, removed, removed_name, i));
            lemma_remove_none(s, i, kind, name);
        },
        None => {},
    }
}

/// Adding a column and then changing its type, with no change of that
/// column pending, leaves one pending addition of the column, with the new
/// type: the column is created with the type it was last given.
pub proof fn law_add_column_then_change_type(
    events: Seq<TableChangeEvents>,
    columns: Seq<Column>,
    current: Option<String>,
    column_name: String,
    added: DataType,
    changed: DataType,
)
    requires
        first_index(events, EventKind::RemoveColumn, column_name@) is None,
        first_index(events, EventKind::AddColumn, column_name@) is None,
        first_index(events, EventKind::ChangeColumnDataType, column_name@) is None,
    ensures
        spec_add_table_change_event(
            spec_add_table_change_event(events, columns, current, TableChangeEvents::AddColumn(column_name, added)),
            columns,
            current,
            TableChangeEvents::ChangeColumnDataType(column_name, changed),
        ) == events.push(TableChangeEvents::AddColumn(column_name, changed)),
{
    let x = TableChangeEvents::AddColumn(column_name, added);
    lemma_push_not_matching(events, x, EventKind::ChangeColumnDataType, column_name@);
    lemma_push_matching(events, x, EventKind::AddColumn, column_name@);
    if added == changed {
        assert(events.push(x) == events.push(TableChangeEvents::AddColumn(column_name, changed)));
    }
}

/// Removing a column of the table, one that is neither added nor renamed
/// by a pending change, always leaves its removal pending, last, whatever
/// change of its type or keys was pending: the column is dropped.
pub proof fn law_remove_existing_column(
    events: Seq<TableChangeEvents>,
    columns: Seq<Column>,
    current: Option<String>,
    column_name: String,
)
    requires
        first_index(events, EventKind::AddColumn, column_name@) is None,
        first_index(events, EventKind::RenameColumnTo, column_name@) is None,
    ensures
        spec_add_table_change_event(events, columns, current, TableChangeEvents::RemoveColumn(column_name)).last()
            == TableChangeEvents::RemoveColumn(column_name),
        spec_add_table_change_event(events, columns, current, TableChangeEvents::RemoveColumn(column_name)).len() > 0,
{
    let c = column_name@;
    let e1 = remove_first(events, EventKind::AddPrimaryKey, c);
    let e2 = remove_first(e1, EventKind::AddForeignKey, c);
    let e3 = remove_first(e2, EventKind::RemovePrimaryKey, c);
    lemma_remove_first_none(events, EventKind::AddPrimaryKey, c, EventKind::AddColumn, c);
    lemma_remove_first_none(e1, EventKind::AddForeignKey, c, EventKind::AddColumn, c);
    lemma_remove_first_none(e2, EventKind::RemovePrimaryKey, c, EventKind::AddColumn, c);
    lemma_remove_first_none(events, EventKind::AddPrimaryKey, c, EventKind::RenameColumnTo, c);
    lemma_remove_first_none(e1, EventKind::AddForeignKey, c, EventKind::RenameColumnTo, c);
    lemma_remove_first_none(e2, EventKind::RemovePrimaryKey, c, EventKind::RenameColumnTo, c);
}

/// Removing a column of which no change is pending appends its removal.
pub proof fn law_remove_untouched_column(
    events: Seq<TableChangeEvents>,
    columns: Seq<Column>,
    current: Option<String>,
    column_name: String,
)
    requires
        first_index(events, EventKind::AddColumn, column_name@) is None,
        first_index(events, EventKind::RenameColumnTo, column_name@) is None,
        first_index(events, EventKind::ChangeColumnDataType, column_name@) is None,
        first_index(events, EventKind::AddPrimaryKey, column_name@) is None,
        first_index(events, EventKind::AddForeignKey, column_name@) is None,
        first_index(events, EventKind::RemovePrimaryKey, column_name@) is None,
    ensures
        spec_add_table_change_event(events, columns, current, TableChangeEvents::RemoveColumn(column_name))
            == events.push(TableChangeEvents::RemoveColumn(column_name)),
{
}

/// Removing a column that carries no primary key leaves the table's margin
/// of primary keys as it was, so it does not change whether the table keeps
/// a key; removing a key column lowers it by one.
pub proof fn law_removing_a_column_and_the_key(
    events: Seq<TableChangeEvents>,
    columns: Seq<Column>,
    column_name: String,
)
    ensures
        !views(spec_primary_key_column_names(columns)).contains(column_name@) ==> key_margin(
            columns,
            events.push(TableChangeEvents::RemoveColumn(column_name)),
        ) == key_margin(columns, events),
        views(spec_primary_key_column_names(columns)).contains(column_name@) ==> key_margin(
            columns,
            events.push(TableChangeEvents::RemoveColumn(column_name)),
        ) == key_margin(columns, events) - 1,
{
    let keys = spec_primary_key_column_names(columns);
    lemma_counts_push(keys, events, TableChangeEvents::RemoveColumn(column_name));
}

/// Removing a column that carries no primary key, of which no change is
/// pending, does not change whether the table keeps a primary key.
pub proof fn law_removing_a_plain_column_keeps_the_key(
    events: Seq<TableChangeEvents>,
    columns: Seq<Column>,
    current: Option<String>,
    column_name: String,
)
    requires
        !views(spec_primary_key_column_names(columns)).contains(column_name@),
        first_index(events, EventKind::AddColumn, column_name@) is None,
        first_index(events, EventKind::RenameColumnTo, column_name@) is None,
        first_index(events, EventKind::ChangeColumnDataType, column_name@) is None,
        first_index(events, EventKind::AddPrimaryKey, column_name@) is None,
        first_index(events, EventKind::AddForeignKey, column_name@) is None,
        first_index(events, EventKind::RemovePrimaryKey, column_name@) is None,
    ensures
        key_margin(
            columns,
            spec_add_table_change_event(events, columns, current, TableChangeEvents::RemoveColumn(column_name)),
        ) == key_margin(columns, events),
{
    law_remove_untouched_column(events, columns, current, column_name);
    law_removing_a_column_and_the_key(events, columns, column_name);
}

// ---------------------------------------------------------------------------
// The table filter
// ---------------------------------------------------------------------------

/// A table is listed under a filter that is a valid expression exactly when
/// the expression `(?i)` followed by the filter, searched anywhere in the
/// table's name, matches: nothing is added to the filter but the flag that
/// ignores case. A filter that is not a valid expression lists every table.
pub proof fn law_filter_is_the_search(filter: Seq<char>, table_name: Seq<char>)
    ensures
        regex_compiles("(?i)"@ + filter) ==> table_listed(filter, table_name) == regex_is_match(
            "(?i)"@ + filter,
            table_name,
        ),
        !regex_compiles("(?i)"@ + filter) ==> table_listed(filter, table_name),
{
}

// ---------------------------------------------------------------------------
// CREATE TABLE
// ---------------------------------------------------------------------------

/// The clauses of a list of constraints are those of its parts, in order.
pub proof fn law_constraint_clauses_concatenate(a: Seq<Constraint>, b: Seq<Constraint>)
    ensures
        spec_constraint_clauses(a + b) == spec_constraint_clauses(a) + spec_constraint_clauses(b),
    decreases b.len(),
{
    if b.len() == 0 {
        assert(a + b =~= a);
        assert(spec_constraint_clauses(a) + spec_constraint_clauses(b) =~= spec_constraint_clauses(a));
    } else {
        law_constraint_clauses_concatenate(a, b.drop_last());
        assert((a + b).drop_last() =~= a + b.drop_last());
        assert((a + b).last() == b.last());
    }
}

/// Each foreign key of a column appears, as `REFERENCES "table"("column")`,
/// in the column's definition in `CREATE TABLE`, whatever its other
/// constraints: at the position `k` the definition reads that clause.
pub proof fn law_foreign_keys_in_definition(c: Column, j: int) -> (k: int)
    requires
        0 <= j < c.constraints@.len(),
        c.constraints@[j] is ForeignKey,
    ensures
        0 <= k,
        k + spec_constraint_clause(c.constraints@[j]).len() <= spec_column_definition(c).len(),
        spec_column_definition(c).subrange(k, k + spec_constraint_clause(c.constraints@[j]).len())
            == (match c.constraints@[j] {
            Constraint::ForeignKey(t, col) => " REFERENCES "@ + quote(t@) + "("@ + quote(col@) + ")"@,
            Constraint::PrimaryKey => Seq::empty(),
        }),
{
    let cs = c.constraints@;
    let before = cs.take(j);
    let after = cs.skip(j + 1);
    assert(cs =~= before + seq![cs[j]] + after);
    law_constraint_clauses_concatenate(before + seq![cs[j]], after);
    law_constraint_clauses_concatenate(before, seq![cs[j]]);
    let one = seq![cs[j]];
    assert(one.drop_last() =~= Seq::<Constraint>::empty());
    assert(spec_constraint_clauses(one.drop_last()) == Seq::<char>::empty());
    assert(one.last() == cs[j]);
    assert(spec_constraint_clauses(one) =~= spec_constraint_clause(cs[j]));
    assert(spec_constraint_clauses(cs) == spec_constraint_clauses(before) + spec_constraint_clause(cs[j])
        + spec_constraint_clauses(after));
    let head = quote(c.name@) + " "@ + crate::schemas::spec_sql_name(c.datatype) + spec_constraint_clauses(before);
    let clause = spec_constraint_clause(cs[j]);
    let k = head.len() as int;
    assert(spec_column_definition(c) =~= head + clause + spec_constraint_clauses(after));
    assert(spec_column_definition(c).subrange(k, k + clause.len()) =~= clause);
    k
}

/// A part of a joined text reads in it at some position.
proof fn lemma_join_contains(parts: Seq<Seq<char>>, sep: Seq<char>, i: int) -> (k: int)
    requires
        0 <= i < parts.len(),
    ensures
        0 <= k,
        k + parts[i].len() <= join(parts, sep).len(),
        join(parts, sep).subrange(k, k + parts[i].len()) == parts[i],
    decreases parts.len(),
{
    if parts.len() == 1 {
        assert(join(parts, sep).subrange(0, parts[i].len() as int) =~= parts[i]);
        0
    } else if i == parts.len() - 1 {
        let j = join(parts.drop_last(), sep) + sep;
        assert(join(parts, sep) == j + parts.last());
        assert(join(parts, sep).subrange(j.len() as int, (j.len() + parts[i].len()) as int) =~= parts[i]);
        j.len() as int
    } else {
        let k = lemma_join_contains(parts.drop_last(), sep, i);
        let rest = join(parts.drop_last(), sep);
        assert(join(parts, sep) == rest + sep + parts.last());
        assert(join(parts, sep).subrange(k, k + parts[i].len()) =~= rest.subrange(k, k + parts[i].len()));
        k
    }
}

/// Each column's definition reads in the statement that creates the table.
pub proof fn law_columns_in_create_table(table_name: Seq<char>, columns: Seq<Column>, i: int) -> (k: int)
    requires
        0 <= i < columns.len(),
    ensures
        0 <= k,
        k + spec_column_definition(columns[i]).len() <= spec_create_table_query(table_name, columns).len(),
        spec_create_table_query(table_name, columns).subrange(k, k + spec_column_definition(columns[i]).len())
            == spec_column_definition(columns[i]),
{
    let definitions = columns.map_values(|c: Column| spec_column_definition(c));
    let keys = crate::sql::spec_table_key_entries(columns);
    let parts = if keys.len() > 0 {
        definitions.push(crate::sql::spec_primary_key_clause(keys))
    } else {
        definitions
    };
    assert(parts[i] == spec_column_definition(columns[i]));
    let j = lemma_join_contains(parts, ", "@, i);
    let head = "CREATE TABLE "@ + quote(table_name) + " ("@;
    let q = spec_create_table_query(table_name, columns);
    assert(q == head + join(parts, ", "@) + ")"@);
    let d = spec_column_definition(columns[i]);
    assert(q.subrange(head.len() + j, head.len() + j + d.len()) =~= join(parts, ", "@).subrange(j, j + d.len()));
    head.len() + j
}


/// Changing the type of a column of which no change of type is pending, and
/// that no pending change adds, appends that change of type.
pub proof fn law_change_type_of_untouched_column(
    events: Seq<TableChangeEvents>,
    columns: Seq<Column>,
    current: Option<String>,
    column_name: String,
    data_type: DataType,
)
    requires
        first_index(events, EventKind::ChangeColumnDataType, column_name@) is None,
        first_index(events, EventKind::AddColumn, column_name@) is None,
    ensures
        spec_add_table_change_event(
            events,
            columns,
            current,
            TableChangeEvents::ChangeColumnDataType(column_name, data_type),
        ) == events.push(TableChangeEvents::ChangeColumnDataType(column_name, data_type)),
{
}

/// Changing the type of a column twice leaves one pending change of its
/// type, to the last type given, when that differs from the column's type in
/// the database.
pub proof fn law_second_type_change_wins(
    events: Seq<TableChangeEvents>,
    columns: Seq<Column>,
    current: Option<String>,
    column_name: String,
    first: DataType,
    second: DataType,
)
    requires
        first_index(events, EventKind::ChangeColumnDataType, column_name@) is None,
        first_index(events, EventKind::AddColumn, column_name@) is None,
        spec_column_datatype(columns, column_name@) matches Some(d) && d != second,
    ensures
        spec_add_table_change_event(
            spec_add_table_change_event(
                events,
                columns,
                current,
                TableChangeEvents::ChangeColumnDataType(column_name, first),
            ),
            columns,
            current,
            TableChangeEvents::ChangeColumnDataType(column_name, second),
        ) == events.push(TableChangeEvents::ChangeColumnDataType(column_name, second)),
{
    let x = TableChangeEvents::ChangeColumnDataType(column_name, first);
    lemma_push_matching(events, x, EventKind::ChangeColumnDataType, column_name@);
}

/// How one pending change moves the table's margin of primary keys: a key
/// marked raises it by one, a key unmarked or a key column removed lowers it
/// by one, any other change leaves it.
pub proof fn law_key_margin_of_a_change(events: Seq<TableChangeEvents>, columns: Seq<Column>, e: TableChangeEvents)
    ensures
        key_margin(columns, events.push(e)) == key_margin(columns, events) + match e {
            TableChangeEvents::AddPrimaryKey(_) => 1int,
            TableChangeEvents::RemovePrimaryKey(_) => -1int,
            TableChangeEvents::RemoveColumn(c) => if views(spec_primary_key_column_names(columns)).contains(c@) {
                -1int
            } else {
                0int
            },
            _ => 0int,
        },
{
    lemma_counts_push(spec_primary_key_column_names(columns), events, e);
}

/// When some column carries a primary key, the statement that creates the
/// table declares the key on the key columns, in order.
pub proof fn law_create_table_declares_the_key(table_name: Seq<char>, columns: Seq<Column>) -> (k: int)
    requires
        crate::sql::spec_table_key_entries(columns).len() > 0,
    ensures
        0 <= k,
        ({
            let clause = "PRIMARY KEY ("@ + join(
                crate::sql::spec_table_key_entries(columns).map_values(|n: Seq<char>| quote(n)),
                ", "@,
            ) + ")"@;
            &&& k + clause.len() <= spec_create_table_query(table_name, columns).len()
            &&& spec_create_table_query(table_name, columns).subrange(k, k + clause.len()) == clause
        }),
{
    let definitions = columns.map_values(|c: Column| spec_column_definition(c));
    let keys = crate::sql::spec_table_key_entries(columns);
    let parts = definitions.push(crate::sql::spec_primary_key_clause(keys));
    let i = parts.len() - 1;
    let j = lemma_join_contains(parts, ", "@, i);
    let head = "CREATE TABLE "@ + quote(table_name) + " ("@;
    let q = spec_create_table_query(table_name, columns);
    assert(q == head + join(parts, ", "@) + ")"@);
    let d = parts[i];
    assert(q.subrange(head.len() + j, head.len() + j + d.len()) =~= join(parts, ", "@).subrange(j, j + d.len()));
    head.len() + j
}

} // verus!
