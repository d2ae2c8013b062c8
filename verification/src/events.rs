use vstd::prelude::*;
use crate::schemas::{ColumnForeignKey, TableChangeEvents};
use crate::strings::str_eq;

verus! {

/// The kinds of pending change that the log looks up by column.
#[derive(Debug, Clone, Copy, PartialEq, Eq, Structural)]
pub enum EventKind {
    ChangeTableName,
    ChangeColumnDataType,
    /// A rename whose new name is the column looked for.
    RenameColumnTo,
    AddColumn,
    RemoveColumn,
    AddForeignKey,
    RemoveForeignKey,
    AddPrimaryKey,
    RemovePrimaryKey,
}

/// Whether `e` is a change of kind `kind` about the column named `name`
/// (a change of the table's name matches whatever `name` is).
pub open spec fn matches_kind(e: TableChangeEvents, kind: EventKind, name: Seq<char>) -> bool {
    match e {
        TableChangeEvents::ChangeTableName(_) => kind == EventKind::ChangeTableName,
        TableChangeEvents::ChangeColumnDataType(c, _) => kind == EventKind::ChangeColumnDataType
            && c@ == name,
        TableChangeEvents::ChangeColumnName(_, m) => kind == EventKind::RenameColumnTo && m@
            == name,
        TableChangeEvents::AddColumn(c, _) => kind == EventKind::AddColumn && c@ == name,
        TableChangeEvents::RemoveColumn(c) => kind == EventKind::RemoveColumn && c@ == name,
        TableChangeEvents::AddForeignKey(fk) => kind == EventKind::AddForeignKey
            && fk.column_name@ == name,
        TableChangeEvents::RemoveForeignKey(c) => kind == EventKind::RemoveForeignKey && c@
            == name,
        TableChangeEvents::AddPrimaryKey(c) => kind == EventKind::AddPrimaryKey && c@ == name,
        TableChangeEvents::RemovePrimaryKey(c) => kind == EventKind::RemovePrimaryKey && c@
            == name,
    }
}

/// `i` is the first position of `events` that matches `kind` and `name`.
pub open spec fn is_first_match(
    events: Seq<TableChangeEvents>,
    kind: EventKind,
    name: Seq<char>,
    i: int,
) -> bool {
    &&& 0 <= i < events.len()
    &&& matches_kind(events[i], kind, name)
    &&& forall|j: int| 0 <= j < i ==> !matches_kind(#[trigger] events[j], kind, name)
}

/// The first position of `events` that matches `kind` and `name`, if any.
pub open spec fn first_index(events: Seq<TableChangeEvents>, kind: EventKind, name: Seq<char>) -> Option<int> {
    if exists|i: int| is_first_match(events, kind, name, i) {
        Some(choose|i: int| is_first_match(events, kind, name, i))
    } else {
        None
    }
}

pub proof fn lemma_first_index_is(events: Seq<TableChangeEvents>, kind: EventKind, name: Seq<char>, i: int)
    requires
        is_first_match(events, kind, name, i),
    ensures
        first_index(events, kind, name) == Some(i),
{
    let k = choose|k: int| is_first_match(events, kind, name, k);
    assert(is_first_match(events, kind, name, k));
    if k < i {
        assert(!matches_kind(events[k], kind, name));
    } else if i < k {
        assert(!matches_kind(events[i], kind, name));
    }
}

pub proof fn lemma_first_index_none(events: Seq<TableChangeEvents>, kind: EventKind, name: Seq<char>)
    requires
        forall|j: int| 0 <= j < events.len() ==> !matches_kind(#[trigger] events[j], kind, name),
    ensures
        first_index(events, kind, name) is None,
{
}

/// Whether an event is a change of kind `kind` about the column `name`.
pub fn event_matches(e: &TableChangeEvents, kind: EventKind, name: &str) -> (res: bool)
    ensures
        res == matches_kind(*e, kind, name@),
{
    match e {
        TableChangeEvents::ChangeTableName(_) => kind == EventKind::ChangeTableName,
        TableChangeEvents::ChangeColumnDataType(c, _) => kind == EventKind::ChangeColumnDataType
            && str_eq(c.as_str(), name),
        TableChangeEvents::ChangeColumnName(_, m) => kind == EventKind::RenameColumnTo && str_eq(
            m.as_str(),
            name,
        ),
        TableChangeEvents::AddColumn(c, _) => kind == EventKind::AddColumn && str_eq(
            c.as_str(),
            name,
        ),
        TableChangeEvents::RemoveColumn(c) => kind == EventKind::RemoveColumn && str_eq(
            c.as_str(),
            name,
        ),
        TableChangeEvents::AddForeignKey(fk) => kind == EventKind::AddForeignKey && str_eq(
            fk.column_name.as_str(),
            name,
        ),
        TableChangeEvents::RemoveForeignKey(c) => kind == EventKind::RemoveForeignKey && str_eq(
            c.as_str(),
            name,
        ),
        TableChangeEvents::AddPrimaryKey(c) => kind == EventKind::AddPrimaryKey && str_eq(
            c.as_str(),
            name,
        ),
        TableChangeEvents::RemovePrimaryKey(c) => kind == EventKind::RemovePrimaryKey && str_eq(
            c.as_str(),
            name,
        ),
    }
}

/// The position of the first event of kind `kind` about the column `name`.
pub fn find_event(events: &Vec<TableChangeEvents>, kind: EventKind, name: &str) -> (res: Option<usize>)
    ensures
        match res {
            Some(i) => first_index(events@, kind, name@) == Some(i as int),
            None => first_index(events@, kind, name@) is None,
        },
{
    let mut i: usize = 0;
    while i < events.len()
        invariant
            i <= events@.len(),
            forall|j: int| 0 <= j < i ==> !matches_kind(#[trigger] events@[j], kind, name@),
        decreases events@.len() - i,
    {
        if event_matches(&events[i], kind, name) {
            proof {
                lemma_first_index_is(events@, kind, name@, i as int);
            }
            return Some(i);
        }
        i = i + 1;
    }
    proof {
        lemma_first_index_none(events@, kind, name@);
    }
    None
}

/// A copy of an event.
pub fn duplicate_event(e: &TableChangeEvents) -> (res: TableChangeEvents)
    ensures
        res == *e,
{
    match e {
        TableChangeEvents::ChangeTableName(n) => TableChangeEvents::ChangeTableName(n.clone()),
        TableChangeEvents::ChangeColumnDataType(c, d) => TableChangeEvents::ChangeColumnDataType(
            c.clone(),
            *d,
        ),
        TableChangeEvents::ChangeColumnName(a, b) => TableChangeEvents::ChangeColumnName(
            a.clone(),
            b.clone(),
        ),
        TableChangeEvents::AddColumn(c, d) => TableChangeEvents::AddColumn(c.clone(), *d),
        TableChangeEvents::RemoveColumn(c) => TableChangeEvents::RemoveColumn(c.clone()),
        TableChangeEvents::AddForeignKey(fk) => TableChangeEvents::AddForeignKey(
            ColumnForeignKey {
                column_name: fk.column_name.clone(),
                referenced_table: fk.referenced_table.clone(),
                referenced_column: fk.referenced_column.clone(),
            },
        ),
        TableChangeEvents::RemoveForeignKey(c) => TableChangeEvents::RemoveForeignKey(c.clone()),
        TableChangeEvents::AddPrimaryKey(c) => TableChangeEvents::AddPrimaryKey(c.clone()),
        TableChangeEvents::RemovePrimaryKey(c) => TableChangeEvents::RemovePrimaryKey(c.clone()),
    }
}

/// A copy of a list of events.
pub fn duplicate_events(events: &Vec<TableChangeEvents>) -> (res: Vec<TableChangeEvents>)
    ensures
        res@ == events@,
{
    let mut res: Vec<TableChangeEvents> = Vec::new();
    let mut i: usize = 0;
    while i < events.len()
        invariant
            i <= events@.len(),
            res@ == events@.subrange(0, i as int),
        decreases events@.len() - i,
    {
        res.push(duplicate_event(&events[i]));
        i = i + 1;
        assert(res@ =~= events@.subrange(0, i as int));
    }
    assert(events@.subrange(0, events@.len() as int) =~= events@);
    res
}

} // verus!
