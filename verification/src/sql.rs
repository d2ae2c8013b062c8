use vstd::prelude::*;
use crate::schemas::{spec_sql_name, Column, Constraint, TableChangeEvents, TableIn};
use crate::strings::{owned, str_eq};

verus! {

// ---------------------------------------------------------------------------
// Text helpers
// ---------------------------------------------------------------------------

/// The views of a list of strings.
pub open spec fn views(s: Seq<String>) -> Seq<Seq<char>> {
    s.map_values(|x: String| x@)
}

/// An identifier between double quotes.
pub open spec fn quote(s: Seq<char>) -> Seq<char> {
    "\""@ + s + "\""@
}

/// The parts joined by `sep`.
pub open spec fn join(parts: Seq<Seq<char>>, sep: Seq<char>) -> Seq<char>
    decreases parts.len(),
{
    if parts.len() == 0 {
        Seq::empty()
    } else if parts.len() == 1 {
        parts[0]
    } else {
        join(parts.drop_last(), sep) + sep + parts.last()
    }
}

/// Appends `"s"` to `buf`.
pub(crate) fn push_quoted(buf: &mut String, s: &str)
    ensures
        final(buf)@ == old(buf)@ + quote(s@),
{
    proof {
        reveal_strlit("\"");
    }
    buf.append("\"");
    buf.append(s);
    buf.append("\"");
    assert(final(buf)@ =~= old(buf)@ + quote(s@));
}

/// The strings joined by `sep`.
pub fn join_strings(parts: &Vec<String>, sep: &str) -> (res: String)
    ensures
        res@ == join(views(parts@), sep@),
{
    let mut res = String::new();
    let mut i: usize = 0;
    while i < parts.len()
        invariant
            i <= parts@.len(),
            res@ == join(views(parts@).take(i as int), sep@),
        decreases parts@.len() - i,
    {
        let ghost before = res@;
        if i != 0 {
            res.append(sep);
        }
        res.append(parts[i].as_str());
        proof {
            let t = views(parts@).take(i + 1);
            assert(t.drop_last() =~= views(parts@).take(i as int));
            assert(t.last() == parts@[i as int]@);
            if i == 0 {
                assert(before =~= Seq::<char>::empty());
                assert(res@ =~= parts@[0]@);
            } else {
                assert(res@ =~= before + sep@ + parts@[i as int]@);
            }
        }
        i = i + 1;
    }
    assert(views(parts@).take(parts@.len() as int) =~= views(parts@));
    res
}

/// The strings, each between double quotes.
pub(crate) fn quote_all(parts: &Vec<String>) -> (res: Vec<String>)
    ensures
        views(res@) == views(parts@).map_values(|p: Seq<char>| quote(p)),
{
    let mut res: Vec<String> = Vec::new();
    let mut i: usize = 0;
    while i < parts.len()
        invariant
            i <= parts@.len(),
            res@.len() == i,
            forall|j: int| 0 <= j < i ==> (#[trigger] res@[j])@ == quote(parts@[j]@),
        decreases parts@.len() - i,
    {
        let mut q = String::new();
        push_quoted(&mut q, parts[i].as_str());
        assert(q@ =~= quote(parts@[i as int]@));
        res.push(q);
        i = i + 1;
    }
    assert(views(res@) =~= views(parts@).map_values(|p: Seq<char>| quote(p)));
    res
}

// ---------------------------------------------------------------------------
// CREATE TABLE
// ---------------------------------------------------------------------------

/// The text a constraint adds to the definition of its column.
pub open spec fn spec_constraint_clause(c: Constraint) -> Seq<char> {
    match c {
        Constraint::ForeignKey(t, col) => " REFERENCES "@ + quote(t@) + "("@ + quote(col@) + ")"@,
        Constraint::PrimaryKey => Seq::empty(),
    }
}

/// The text the constraints add to the definition of their column.
pub open spec fn spec_constraint_clauses(cs: Seq<Constraint>) -> Seq<char>
    decreases cs.len(),
{
    if cs.len() == 0 {
        Seq::empty()
    } else {
        spec_constraint_clauses(cs.drop_last()) + spec_constraint_clause(cs.last())
    }
}

/// The definition of a column in `CREATE TABLE`.
pub open spec fn spec_column_definition(c: Column) -> Seq<char> {
    quote(c.name@) + " "@ + spec_sql_name(c.datatype) + spec_constraint_clauses(c.constraints@)
}

/// The name of a column once per primary key constraint it carries.
pub open spec fn spec_column_key_entries(name: Seq<char>, cs: Seq<Constraint>) -> Seq<Seq<char>>
    decreases cs.len(),
{
    if cs.len() == 0 {
        Seq::empty()
    } else {
        let rest = spec_column_key_entries(name, cs.drop_last());
        if cs.last() is PrimaryKey {
            rest.push(name)
        } else {
            rest
        }
    }
}

/// The primary key columns of a new table, in order.
pub open spec fn spec_table_key_entries(columns: Seq<Column>) -> Seq<Seq<char>>
    decreases columns.len(),
{
    if columns.len() == 0 {
        Seq::empty()
    } else {
        spec_table_key_entries(columns.drop_last()) + spec_column_key_entries(
            columns.last().name@,
            columns.last().constraints@,
        )
    }
}

/// `PRIMARY KEY ("a", "b")`
pub open spec fn spec_primary_key_clause(keys: Seq<Seq<char>>) -> Seq<char> {
    "PRIMARY KEY ("@ + join(keys.map_values(|k: Seq<char>| quote(k)), ", "@) + ")"@
}

/// The statement that creates a table.
pub open spec fn spec_create_table_query(table_name: Seq<char>, columns: Seq<Column>) -> Seq<char> {
    let definitions = columns.map_values(|c: Column| spec_column_definition(c));
    let keys = spec_table_key_entries(columns);
    let parts = if keys.len() > 0 {
        definitions.push(spec_primary_key_clause(keys))
    } else {
        definitions
    };
    "CREATE TABLE "@ + quote(table_name) + " ("@ + join(parts, ", "@) + ")"@
}

/// The definition of a column, and its name once per primary key constraint.
fn column_definition(c: &Column, keys: &mut Vec<String>) -> (res: String)
    ensures
        res@ == spec_column_definition(*c),
        views(final(keys)@) == views(old(keys)@) + spec_column_key_entries(c.name@, c.constraints@),
{
    proof {
        reveal_strlit(" ");
        reveal_strlit(" REFERENCES ");
        reveal_strlit("(");
        reveal_strlit(")");
    }
    let mut def = String::new();
    push_quoted(&mut def, c.name.as_str());
    def.append(" ");
    let t = c.datatype.sql_name();
    def.append(t.as_str());
    let ghost head = def@;
    let mut j: usize = 0;
    while j < c.constraints.len()
        invariant
            j <= c.constraints@.len(),
            def@ == head + spec_constraint_clauses(c.constraints@.take(j as int)),
            views(keys@) == views(old(keys)@) + spec_column_key_entries(
                c.name@,
                c.constraints@.take(j as int),
            ),
        decreases c.constraints@.len() - j,
    {
        let ghost d0 = def@;
        let ghost k0 = views(keys@);
        match &c.constraints[j] {
            Constraint::ForeignKey(t, col) => {
                def.append(" REFERENCES ");
                push_quoted(&mut def, t.as_str());
                def.append("(");
                push_quoted(&mut def, col.as_str());
                def.append(")");
            },
            Constraint::PrimaryKey => {
                keys.push(c.name.clone());
            },
        }
        proof {
            let t1 = c.constraints@.take(j + 1);
            assert(t1.drop_last() =~= c.constraints@.take(j as int));
            assert(t1.last() == c.constraints@[j as int]);
            assert(def@ =~= d0 + spec_constraint_clause(c.constraints@[j as int]));
            if c.constraints@[j as int] is PrimaryKey {
                assert(views(keys@) =~= k0.push(c.name@));
            } else {
                assert(views(keys@) =~= k0);
            }
            assert(views(keys@) =~= views(old(keys)@) + spec_column_key_entries(c.name@, t1));
        }
        j = j + 1;
    }
    assert(c.constraints@.take(c.constraints@.len() as int) =~= c.constraints@);
    assert(def@ =~= spec_column_definition(*c));
    def
}

/// The statement that creates the table `table_in` describes.
pub fn create_table_query(table_in: &TableIn) -> (res: String)
    ensures
        res@ == spec_create_table_query(table_in.table_name@, table_in.columns@),
{
    proof {
        reveal_strlit("CREATE TABLE ");
        reveal_strlit(" (");
        reveal_strlit(")");
        reveal_strlit(", ");
        reveal_strlit("PRIMARY KEY (");
    }
    let ghost cols = table_in.columns@;
    let mut definitions: Vec<String> = Vec::new();
    let mut keys: Vec<String> = Vec::new();
    let mut i: usize = 0;
    while i < table_in.columns.len()
        invariant
            cols == table_in.columns@,
            i <= cols.len(),
            views(definitions@) == cols.take(i as int).map_values(|c: Column| spec_column_definition(c)),
            views(keys@) == spec_table_key_entries(cols.take(i as int)),
        decreases cols.len() - i,
    {
        let d = column_definition(&table_in.columns[i], &mut keys);
        let ghost defs0 = definitions@;
        definitions.push(d);
        proof {
            assert(views(definitions@) =~= views(defs0).push(d@));
            let t1 = cols.take(i + 1);
            assert(t1.drop_last() =~= cols.take(i as int));
            assert(views(definitions@) =~= t1.map_values(|c: Column| spec_column_definition(c)));
        }
        i = i + 1;
    }
    assert(cols.take(cols.len() as int) =~= cols);
    if keys.len() > 0 {
        let quoted = quote_all(&keys);
        let mut clause = owned("PRIMARY KEY (");
        let list = join_strings(&quoted, ", ");
        clause.append(list.as_str());
        clause.append(")");
        assert(clause@ =~= spec_primary_key_clause(views(keys@)));
        definitions.push(clause);
    }
    let ghost keys_v = spec_table_key_entries(cols);
    assert(views(definitions@) =~= (if keys_v.len() > 0 {
        cols.map_values(|c: Column| spec_column_definition(c)).push(spec_primary_key_clause(keys_v))
    } else {
        cols.map_values(|c: Column| spec_column_definition(c))
    }));
    let mut query = owned("CREATE TABLE ");
    push_quoted(&mut query, table_in.table_name.as_str());
    query.append(" (");
    let body = join_strings(&definitions, ", ");
    query.append(body.as_str());
    query.append(")");
    assert(query@ =~= spec_create_table_query(table_in.table_name@, table_in.columns@));
    query
}

/// The statement that drops a table.
pub open spec fn spec_delete_table_query(table_name: Seq<char>) -> Seq<char> {
    "DROP TABLE "@ + table_name
}

/// The statement that drops the table `table_name`; the name is written as given.
pub fn delete_table_query(table_name: &str) -> (res: String)
    ensures
        res@ == spec_delete_table_query(table_name@),
{
    proof {
        reveal_strlit("DROP TABLE ");
    }
    let mut q = owned("DROP TABLE ");
    q.append(table_name);
    q
}

// ---------------------------------------------------------------------------
// ALTER TABLE
// ---------------------------------------------------------------------------

/// The statement that applies one change to the table now named `current`.
/// A removal of a primary key drops the table's key constraint, which
/// PostgreSQL names `<table>_pkey`, as it names a foreign key constraint
/// `<table>_<column>_fkey`.
pub open spec fn spec_event_statement(current: Seq<char>, e: TableChangeEvents) -> Seq<char> {
    let head = "ALTER TABLE "@ + quote(current);
    match e {
        TableChangeEvents::ChangeTableName(n) => head + " RENAME TO "@ + quote(n@),
        TableChangeEvents::ChangeColumnDataType(c, d) => head + " ALTER COLUMN "@ + quote(c@)
            + " TYPE "@ + spec_sql_name(d) + " USING "@ + quote(c@) + "::"@ + spec_sql_name(d),
        TableChangeEvents::ChangeColumnName(o, n) => head + " RENAME COLUMN "@ + quote(o@)
            + " TO "@ + quote(n@),
        TableChangeEvents::AddColumn(c, d) => head + " ADD COLUMN "@ + quote(c@) + " "@
            + spec_sql_name(d),
        TableChangeEvents::RemoveColumn(c) => head + " DROP COLUMN "@ + quote(c@),
        TableChangeEvents::AddForeignKey(fk) => head + " ADD FOREIGN KEY ("@ + quote(
            fk.column_name@,
        ) + ") REFERENCES "@ + quote(fk.referenced_table@) + "("@ + quote(
            fk.referenced_column@,
        ) + ")"@,
        TableChangeEvents::RemoveForeignKey(c) => head + " DROP CONSTRAINT IF EXISTS "@ + quote(
            current + "_"@ + c@ + "_fkey"@,
        ),
        TableChangeEvents::AddPrimaryKey(c) => head + " ADD PRIMARY KEY ("@ + quote(c@) + ")"@,
        TableChangeEvents::RemovePrimaryKey(_) => head + " DROP CONSTRAINT IF EXISTS "@ + quote(
            current + "_pkey"@,
        ),
    }
}

/// The name of the table after a change.
pub open spec fn spec_name_after(current: Seq<char>, e: TableChangeEvents) -> Seq<char> {
    match e {
        TableChangeEvents::ChangeTableName(n) => n@,
        _ => current,
    }
}

/// The statements of the changes, one per change, in order, each addressing
/// the table by the name it has at that point.
pub open spec fn spec_event_statements(current: Seq<char>, events: Seq<TableChangeEvents>) -> Seq<Seq<char>>
    decreases events.len(),
{
    if events.len() == 0 {
        Seq::empty()
    } else {
        let e = events[0];
        seq![spec_event_statement(current, e)] + spec_event_statements(spec_name_after(current, e), events.drop_first())
    }
}

/// The name of the table after all the changes.
pub open spec fn spec_final_table_name(current: Seq<char>, events: Seq<TableChangeEvents>) -> Seq<char>
    decreases events.len(),
{
    if events.len() == 0 {
        current
    } else {
        spec_final_table_name(spec_name_after(current, events[0]), events.drop_first())
    }
}

/// The statements that apply `events` to the table `table_name`: one per
/// change, in order, each addressing the table by the name it has at that
/// point (a primary key addition is `ADD PRIMARY KEY` of its column, in its
/// place).
pub open spec fn spec_alter_table_queries(table_name: Seq<char>, events: Seq<TableChangeEvents>) -> Seq<Seq<char>> {
    spec_event_statements(table_name, events)
}

/// The statement that applies one change.
fn event_statement(current: &str, e: &TableChangeEvents) -> (res: String)
    ensures
        res@ == spec_event_statement(current@, *e),
{
    proof {
        reveal_strlit("ALTER TABLE ");
        reveal_strlit(" RENAME TO ");
        reveal_strlit(" ALTER COLUMN ");
        reveal_strlit(" TYPE ");
        reveal_strlit(" USING ");
        reveal_strlit("::");
        reveal_strlit(" RENAME COLUMN ");
        reveal_strlit(" TO ");
        reveal_strlit(" ADD COLUMN ");
        reveal_strlit(" ");
        reveal_strlit(" DROP COLUMN ");
        reveal_strlit(" ADD FOREIGN KEY (");
        reveal_strlit(") REFERENCES ");
        reveal_strlit("(");
        reveal_strlit(")");
        reveal_strlit(" DROP CONSTRAINT IF EXISTS ");
        reveal_strlit("_");
        reveal_strlit("_fkey");
        reveal_strlit(" ADD PRIMARY KEY (");
        reveal_strlit("_pkey");
    }
    let mut q = owned("ALTER TABLE ");
    push_quoted(&mut q, current);
    match e {
        TableChangeEvents::ChangeTableName(n) => {
            q.append(" RENAME TO ");
            push_quoted(&mut q, n.as_str());
        },
        TableChangeEvents::ChangeColumnDataType(c, d) => {
            let t = d.sql_name();
            q.append(" ALTER COLUMN ");
            push_quoted(&mut q, c.as_str());
            q.append(" TYPE ");
            q.append(t.as_str());
            q.append(" USING ");
            push_quoted(&mut q, c.as_str());
            q.append("::");
            q.append(t.as_str());
        },
        TableChangeEvents::ChangeColumnName(o, n) => {
            q.append(" RENAME COLUMN ");
            push_quoted(&mut q, o.as_str());
            q.append(" TO ");
            push_quoted(&mut q, n.as_str());
        },
        TableChangeEvents::AddColumn(c, d) => {
            let t = d.sql_name();
            q.append(" ADD COLUMN ");
            push_quoted(&mut q, c.as_str());
            q.append(" ");
            q.append(t.as_str());
        },
        TableChangeEvents::RemoveColumn(c) => {
            q.append(" DROP COLUMN ");
            push_quoted(&mut q, c.as_str());
        },
        TableChangeEvents::AddForeignKey(fk) => {
            q.append(" ADD FOREIGN KEY (");
            push_quoted(&mut q, fk.column_name.as_str());
            q.append(") REFERENCES ");
            push_quoted(&mut q, fk.referenced_table.as_str());
            q.append("(");
            push_quoted(&mut q, fk.referenced_column.as_str());
            q.append(")");
        },
        TableChangeEvents::RemoveForeignKey(c) => {
            q.append(" DROP CONSTRAINT IF EXISTS ");
            let mut name = owned(current);
            name.append("_");
            name.append(c.as_str());
            name.append("_fkey");
            push_quoted(&mut q, name.as_str());
        },
        TableChangeEvents::AddPrimaryKey(c) => {
            q.append(" ADD PRIMARY KEY (");
            push_quoted(&mut q, c.as_str());
            q.append(")");
        },
        TableChangeEvents::RemovePrimaryKey(_) => {
            q.append(" DROP CONSTRAINT IF EXISTS ");
            let mut name = owned(current);
            name.append("_pkey");
            push_quoted(&mut q, name.as_str());
        },
    }
    assert(q@ =~= spec_event_statement(current@, *e));
    q
}

/// Whether some string of `keys` reads `c`.
pub fn contains_key(keys: &Vec<String>, c: &str) -> (res: bool)
    ensures
        res == views(keys@).contains(c@),
{
    let mut i: usize = 0;
    while i < keys.len()
        invariant
            i <= keys@.len(),
            forall|j: int| 0 <= j < i ==> keys@[j]@ != c@,
        decreases keys@.len() - i,
    {
        if str_eq(keys[i].as_str(), c) {
            assert(views(keys@)[i as int] == c@);
            return true;
        }
        i = i + 1;
    }
    assert(!views(keys@).contains(c@)) by {
        if views(keys@).contains(c@) {
            let j = choose|j: int| 0 <= j < views(keys@).len() && views(keys@)[j] == c@;
            assert(keys@[j]@ == c@);
        }
    }
    false
}

/// The statements that apply `table_change_events` to the table
/// `table_name`: one per change, in order, each addressing the table by the
/// name it has at that point.
pub fn alter_table_queries(table_name: &str, table_change_events: &Vec<TableChangeEvents>) -> (res: Vec<String>)
    ensures
        views(res@) == spec_alter_table_queries(table_name@, table_change_events@),
{
    let ghost events = table_change_events@;
    let mut statements: Vec<String> = Vec::new();
    let mut current = owned(table_name);
    let mut i: usize = 0;
    assert(events.skip(0) =~= events);
    while i < table_change_events.len()
        invariant
            events == table_change_events@,
            i <= events.len(),
            spec_event_statements(table_name@, events) == views(statements@)
                + spec_event_statements(current@, events.skip(i as int)),
        decreases events.len() - i,
    {
        let e = &table_change_events[i];
        proof {
            assert(events.skip(i as int)[0] == events[i as int]);
            assert(events.skip(i as int).drop_first() =~= events.skip(i + 1));
        }
        let ghost s0 = views(statements@);
        let st = event_statement(current.as_str(), e);
        statements.push(st);
        assert(views(statements@) =~= s0 + seq![spec_event_statement(current@, events[i as int])]);
        match e {
            TableChangeEvents::ChangeTableName(n) => {
                current = n.clone();
            },
            _ => {},
        }
        i = i + 1;
    }
    assert(events.skip(events.len() as int) =~= Seq::<TableChangeEvents>::empty());
    assert(views(statements@) + Seq::<Seq<char>>::empty() =~= views(statements@));
    statements
}

} // verus!
