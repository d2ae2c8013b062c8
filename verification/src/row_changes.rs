use vstd::prelude::*;
use crate::sql::{contains_key, join, join_strings, push_quoted, quote, quote_all, views};
use crate::strings::{owned, str_eq};

verus! {

// ---------------------------------------------------------------------------
// Pending changes to the rows of a table
// ---------------------------------------------------------------------------

/// The value of one column of a row.
#[derive(Debug, Clone, PartialEq)]
pub struct ColumnValue {
    pub column_name: String,
    pub value: String,
}

/// A new value for one cell: the row, found by the values of `conditions`,
/// the column, and the value.
#[derive(Debug, Clone, PartialEq)]
pub struct RowColumnValue {
    pub conditions: Vec<ColumnValue>,
    pub column_name: String,
    pub value: String,
}

/// A change to the rows of a table, waiting to be saved.
#[derive(Debug, Clone, PartialEq)]
pub enum TableDataChangeEvents {
    /// Give a cell a new value.
    ModifyRowColumnValue(RowColumnValue),
    /// Delete the row that these values identify.
    DeleteRow(Vec<ColumnValue>),
    /// Insert a row with these values, one per column.
    InsertRow(Vec<String>),
}

/// What a column value reads.
pub open spec fn column_value_view(c: ColumnValue) -> (Seq<char>, Seq<char>) {
    (c.column_name@, c.value@)
}

/// What a list of column values reads.
pub open spec fn conditions_view(cs: Seq<ColumnValue>) -> Seq<(Seq<char>, Seq<char>)> {
    cs.map_values(|c: ColumnValue| column_value_view(c))
}

/// Whether the column `name` is used to identify rows: it is a primary key
/// column, or the table has no primary key and every column is used.
pub open spec fn identifies_rows(keys: Seq<String>, name: Seq<char>) -> bool {
    keys.len() == 0 || views(keys).contains(name)
}

/// The values of the first `n` cells of `row` whose columns identify rows.
pub open spec fn spec_row_conditions(names: Seq<String>, keys: Seq<String>, row: Seq<String>, n: int) -> Seq<ColumnValue>
    decreases n,
{
    if n <= 0 {
        Seq::empty()
    } else {
        let rest = spec_row_conditions(names, keys, row, n - 1);
        if identifies_rows(keys, names[n - 1]@) {
            rest.push(ColumnValue { column_name: names[n - 1], value: row[n - 1] })
        } else {
            rest
        }
    }
}

/// The values that identify `row` of a table with columns `names` and
/// primary key columns `keys`: those of its key columns, or of all its
/// columns when the table has no primary key.
pub open spec fn spec_conditions_of_row(names: Seq<String>, keys: Seq<String>, row: Seq<String>) -> Seq<ColumnValue> {
    spec_row_conditions(names, keys, row, if names.len() <= row.len() { names.len() as int } else { row.len() as int })
}

/// The values that identify `row`.
pub fn row_conditions(names: &Vec<String>, keys: &Vec<String>, row: &Vec<String>) -> (res: Vec<ColumnValue>)
    ensures
        res@ == spec_conditions_of_row(names@, keys@, row@),
{
    let n = if names.len() <= row.len() {
        names.len()
    } else {
        row.len()
    };
    let mut res: Vec<ColumnValue> = Vec::new();
    let mut i: usize = 0;
    while i < n
        invariant
            n <= names@.len(),
            n <= row@.len(),
            n == (if names@.len() <= row@.len() { names@.len() as int } else { row@.len() as int }),
            i <= n,
            res@ == spec_row_conditions(names@, keys@, row@, i as int),
        decreases n - i,
    {
        if keys.len() == 0 || contains_key(keys, names[i].as_str()) {
            res.push(ColumnValue { column_name: names[i].clone(), value: row[i].clone() });
        }
        i = i + 1;
    }
    res
}

/// Whether two lists of values identify the same row, as pending row
/// changes are compared: their values agree pair by pair, as far as the
/// shorter list goes.
pub open spec fn same_row_values(a: Seq<ColumnValue>, b: Seq<ColumnValue>) -> bool {
    forall|i: int| 0 <= i < a.len() && 0 <= i < b.len() ==> (#[trigger] a[i]).value@ == (#[trigger] b[i]).value@
}

/// Whether two lists of values identify the same row.
pub fn same_row(a: &Vec<ColumnValue>, b: &Vec<ColumnValue>) -> (res: bool)
    ensures
        res == same_row_values(a@, b@),
{
    let n = if a.len() <= b.len() {
        a.len()
    } else {
        b.len()
    };
    let mut i: usize = 0;
    while i < n
        invariant
            n <= a@.len(),
            n <= b@.len(),
            n == a@.len() || n == b@.len(),
            i <= n,
            forall|j: int| 0 <= j < i ==> (#[trigger] a@[j]).value@ == b@[j].value@,
        decreases n - i,
    {
        if !str_eq(a[i].value.as_str(), b[i].value.as_str()) {
            return false;
        }
        i = i + 1;
    }
    true
}

/// Whether the pending change `e` gives a new value to a cell of the row
/// identified by `conditions`.
pub open spec fn modifies_row(e: TableDataChangeEvents, conditions: Seq<ColumnValue>) -> bool {
    match e {
        TableDataChangeEvents::ModifyRowColumnValue(v) => same_row_values(conditions, v.conditions@),
        _ => false,
    }
}

/// `i` is the first pending change that gives a cell of the row a new value.
pub open spec fn is_first_row_change(log: Seq<TableDataChangeEvents>, conditions: Seq<ColumnValue>, i: int) -> bool {
    &&& 0 <= i < log.len()
    &&& modifies_row(log[i], conditions)
    &&& forall|j: int| 0 <= j < i ==> !modifies_row(#[trigger] log[j], conditions)
}

/// The log of row changes after `e` is recorded: a new value for a cell
/// replaces the first pending new value in the same row (the latest edit of
/// a row wins) and goes to the end; deletions and insertions are appended.
pub open spec fn spec_add_row_change(log: Seq<TableDataChangeEvents>, e: TableDataChangeEvents) -> Seq<TableDataChangeEvents> {
    match e {
        TableDataChangeEvents::ModifyRowColumnValue(v) => {
            if exists|i: int| is_first_row_change(log, v.conditions@, i) {
                log.remove(choose|i: int| is_first_row_change(log, v.conditions@, i)).push(e)
            } else {
                log.push(e)
            }
        },
        _ => log.push(e),
    }
}

/// Records a change to the rows in the log.
pub fn add_row_change(log: &mut Vec<TableDataChangeEvents>, e: TableDataChangeEvents)
    ensures
        final(log)@ == spec_add_row_change(old(log)@, e),
{
    match &e {
        TableDataChangeEvents::ModifyRowColumnValue(v) => {
            let mut i: usize = 0;
            let mut found: Option<usize> = None;
            while i < log.len() && found.is_none()
                invariant
                    i <= log@.len(),
                    match found {
                        Some(k) => is_first_row_change(log@, v.conditions@, k as int),
                        None => forall|j: int| 0 <= j < i ==> !modifies_row(#[trigger] log@[j], v.conditions@),
                    },
                decreases log@.len() - i + if found is None { 1int } else { 0int },
            {
                let hit = match &log[i] {
                    TableDataChangeEvents::ModifyRowColumnValue(w) => same_row(&v.conditions, &w.conditions),
                    _ => false,
                };
                assert(hit == modifies_row(log@[i as int], v.conditions@));
                if hit {
                    found = Some(i);
                } else {
                    i = i + 1;
                }
            }
            match found {
                Some(k) => {
                    proof {
                        let m = choose|m: int| is_first_row_change(log@, v.conditions@, m);
                        if m < k {
                            assert(!modifies_row(log@[m], v.conditions@));
                        } else if k < m {
                            assert(!modifies_row(log@[k as int], v.conditions@));
                        }
                    }
                    log.remove(k);
                },
                None => {
                    assert forall|m: int| !is_first_row_change(log@, v.conditions@, m) by {
                        if 0 <= m < log@.len() {
                            assert(!modifies_row(log@[m], v.conditions@));
                        }
                    }
                },
            }
        },
        _ => {},
    }
    log.push(e);
}

// ---------------------------------------------------------------------------
// The statements that save the changes
// ---------------------------------------------------------------------------

/// The text with each single quote doubled, as SQL string literals write it.
pub open spec fn escape_quotes(s: Seq<char>) -> Seq<char>
    decreases s.len(),
{
    if s.len() == 0 {
        s
    } else {
        escape_quotes(s.drop_last()) + if s.last() == '\'' {
            seq!['\'', '\'']
        } else {
            seq![s.last()]
        }
    }
}

/// A text as an SQL string literal.
pub open spec fn sql_text(v: Seq<char>) -> Seq<char> {
    "'"@ + escape_quotes(v) + "'"@
}

/// A cell's value as written into the database: an empty cell is NULL (as a
/// NULL cell is read as empty), any other value a string literal that the
/// database converts to the column's type.
pub open spec fn sql_value(v: Seq<char>) -> Seq<char> {
    if v.len() == 0 {
        "NULL"@
    } else {
        sql_text(v)
    }
}

/// The test that a row has the value `c.1` in column `c.0`, comparing text
/// and reading NULL as empty, as cells are read.
pub open spec fn condition_text(c: (Seq<char>, Seq<char>)) -> Seq<char> {
    "COALESCE("@ + quote(c.0) + "::TEXT, '') = "@ + sql_text(c.1)
}

/// The test that a row has all the values `cs`.
pub open spec fn where_clause(cs: Seq<(Seq<char>, Seq<char>)>) -> Seq<char> {
    join(cs.map_values(|c: (Seq<char>, Seq<char>)| condition_text(c)), " AND "@)
}

/// The statement that saves one change to the rows of `table`, whose
/// columns are `names`; a change of a row that no value identifies has none
/// (it would reach every row).
pub open spec fn spec_row_change_query(
    table: Seq<char>,
    names: Seq<Seq<char>>,
    e: TableDataChangeEvents,
) -> Option<Seq<char>> {
    match e {
        TableDataChangeEvents::ModifyRowColumnValue(v) => if v.conditions@.len() == 0 {
            None
        } else {
            Some(
                "UPDATE "@ + quote(table) + " SET "@ + quote(v.column_name@) + " = "@ + sql_value(v.value@)
                    + " WHERE "@ + where_clause(conditions_view(v.conditions@)),
            )
        },
        TableDataChangeEvents::DeleteRow(cs) => if cs@.len() == 0 {
            None
        } else {
            Some("DELETE FROM "@ + quote(table) + " WHERE "@ + where_clause(conditions_view(cs@)))
        },
        TableDataChangeEvents::InsertRow(values) => Some(
            "INSERT INTO "@ + quote(table) + " ("@ + join(
                names.map_values(|n: Seq<char>| quote(n)),
                ", "@,
            ) + ") VALUES ("@ + join(views(values@).map_values(|x: Seq<char>| sql_value(x)), ", "@)
                + ")"@,
        ),
    }
}

/// The statements that save the changes of `log`, in order.
pub open spec fn spec_row_change_queries(
    table: Seq<char>,
    names: Seq<Seq<char>>,
    log: Seq<TableDataChangeEvents>,
) -> Seq<Seq<char>>
    decreases log.len(),
{
    if log.len() == 0 {
        Seq::empty()
    } else {
        let rest = spec_row_change_queries(table, names, log.drop_last());
        match spec_row_change_query(table, names, log.last()) {
            Some(q) => rest.push(q),
            None => rest,
        }
    }
}

/// Appends `s` with its single quotes doubled.
fn push_escaped(buf: &mut String, s: &str)
    ensures
        final(buf)@ == old(buf)@ + escape_quotes(s@),
{
    let n = s.unicode_len();
    let mut i: usize = 0;
    proof {
        assert(s@.take(0) =~= Seq::<char>::empty());
        assert(buf@ =~= old(buf)@ + escape_quotes(s@.take(0)));
    }
    while i < n
        invariant
            n == s@.len(),
            i <= n,
            buf@ == old(buf)@ + escape_quotes(s@.take(i as int)),
        decreases n - i,
    {
        let ghost b0 = buf@;
        proof {
            reveal_strlit("''");
        }
        let ch = s.get_char(i);
        if ch == '\'' {
            buf.append("''");
        } else {
            buf.append(s.substring_char(i, i + 1));
        }
        proof {
            let t = s@.take(i + 1);
            assert(t.drop_last() =~= s@.take(i as int));
            assert(t.last() == ch);
            if ch == '\'' {
                assert(buf@ =~= b0 + seq!['\'', '\'']);
            } else {
                assert(s@.subrange(i as int, i + 1) =~= seq![ch]);
            }
            assert(buf@ =~= old(buf)@ + escape_quotes(t));
        }
        i = i + 1;
    }
    assert(s@.take(n as int) =~= s@);
}

/// Appends `s` as a string literal.
fn push_sql_text(buf: &mut String, s: &str)
    ensures
        final(buf)@ == old(buf)@ + sql_text(s@),
{
    proof {
        reveal_strlit("'");
    }
    buf.append("'");
    push_escaped(buf, s);
    buf.append("'");
    assert(final(buf)@ =~= old(buf)@ + sql_text(s@));
}

/// Appends a cell's value as written into the database.
fn push_sql_value(buf: &mut String, s: &str)
    ensures
        final(buf)@ == old(buf)@ + sql_value(s@),
{
    proof {
        reveal_strlit("NULL");
    }
    if s.unicode_len() == 0 {
        buf.append("NULL");
    } else {
        push_sql_text(buf, s);
    }
}

/// The test that a row has all the values `cs`.
fn where_text(cs: &Vec<ColumnValue>) -> (res: String)
    ensures
        res@ == where_clause(conditions_view(cs@)),
{
    let mut parts: Vec<String> = Vec::new();
    let mut i: usize = 0;
    while i < cs.len()
        invariant
            i <= cs@.len(),
            parts@.len() == i,
            forall|j: int| 0 <= j < i ==> (#[trigger] parts@[j])@ == condition_text(column_value_view(cs@[j])),
        decreases cs@.len() - i,
    {
        proof {
            reveal_strlit("COALESCE(");
            reveal_strlit("::TEXT, '') = ");
        }
        let mut t = owned("COALESCE(");
        push_quoted(&mut t, cs[i].column_name.as_str());
        t.append("::TEXT, '') = ");
        push_sql_text(&mut t, cs[i].value.as_str());
        assert(t@ =~= condition_text(column_value_view(cs@[i as int])));
        parts.push(t);
        i = i + 1;
    }
    let res = join_strings(&parts, " AND ");
    assert(views(parts@) =~= conditions_view(cs@).map_values(
        |c: (Seq<char>, Seq<char>)| condition_text(c),
    ));
    res
}

/// The values of a row as written into the database.
fn sql_values(values: &Vec<String>) -> (res: Vec<String>)
    ensures
        views(res@) == views(values@).map_values(|x: Seq<char>| sql_value(x)),
{
    let mut res: Vec<String> = Vec::new();
    let mut i: usize = 0;
    while i < values.len()
        invariant
            i <= values@.len(),
            res@.len() == i,
            forall|j: int| 0 <= j < i ==> (#[trigger] res@[j])@ == sql_value(values@[j]@),
        decreases values@.len() - i,
    {
        let mut v = String::new();
        push_sql_value(&mut v, values[i].as_str());
        assert(v@ =~= sql_value(values@[i as int]@));
        res.push(v);
        i = i + 1;
    }
    assert(views(res@) =~= views(values@).map_values(|x: Seq<char>| sql_value(x)));
    res
}

/// The statement that saves one change to the rows of `table`.
pub fn row_change_query(table: &str, names: &Vec<String>, e: &TableDataChangeEvents) -> (res: Option<String>)
    ensures
        match spec_row_change_query(table@, views(names@), *e) {
            Some(q) => res matches Some(r) && r@ == q,
            None => res is None,
        },
{
    proof {
        reveal_strlit("UPDATE ");
        reveal_strlit(" SET ");
        reveal_strlit(" = ");
        reveal_strlit(" WHERE ");
        reveal_strlit("DELETE FROM ");
        reveal_strlit("INSERT INTO ");
        reveal_strlit(" (");
        reveal_strlit(") VALUES (");
        reveal_strlit(")");
    }
    match e {
        TableDataChangeEvents::ModifyRowColumnValue(v) => {
            if v.conditions.len() == 0 {
                None
            } else {
                let mut q = owned("UPDATE ");
                push_quoted(&mut q, table);
                q.append(" SET ");
                push_quoted(&mut q, v.column_name.as_str());
                q.append(" = ");
                push_sql_value(&mut q, v.value.as_str());
                q.append(" WHERE ");
                let w = where_text(&v.conditions);
                q.append(w.as_str());
                Some(q)
            }
        },
        TableDataChangeEvents::DeleteRow(cs) => {
            if cs.len() == 0 {
                None
            } else {
                let mut q = owned("DELETE FROM ");
                push_quoted(&mut q, table);
                q.append(" WHERE ");
                let w = where_text(cs);
                q.append(w.as_str());
                Some(q)
            }
        },
        TableDataChangeEvents::InsertRow(values) => {
            let mut q = owned("INSERT INTO ");
            push_quoted(&mut q, table);
            q.append(" (");
            let quoted = quote_all(names);
            let list = join_strings(&quoted, ", ");
            q.append(list.as_str());
            q.append(") VALUES (");
            let vals = sql_values(values);
            let vlist = join_strings(&vals, ", ");
            q.append(vlist.as_str());
            q.append(")");
            proof {
                assert(views(quoted@) =~= views(names@).map_values(|n: Seq<char>| quote(n)));
            }
            Some(q)
        },
    }
}

/// The statements that save the changes of `log` to the rows of `table`,
/// whose columns are `names`, in order.
pub fn row_change_queries(table: &str, names: &Vec<String>, log: &Vec<TableDataChangeEvents>) -> (res: Vec<String>)
    ensures
        views(res@) == spec_row_change_queries(table@, views(names@), log@),
{
    let mut res: Vec<String> = Vec::new();
    let mut i: usize = 0;
    while i < log.len()
        invariant
            i <= log@.len(),
            views(res@) == spec_row_change_queries(table@, views(names@), log@.take(i as int)),
        decreases log@.len() - i,
    {
        let ghost r0 = views(res@);
        match row_change_query(table, names, &log[i]) {
            Some(q) => {
                res.push(q);
                assert(views(res@) =~= r0.push(q@));
            },
            None => {},
        }
        proof {
            let t = log@.take(i + 1);
            assert(t.drop_last() =~= log@.take(i as int));
            assert(t.last() == log@[i as int]);
        }
        i = i + 1;
    }
    assert(log@.take(log@.len() as int) =~= log@);
    res
}

} // verus!
