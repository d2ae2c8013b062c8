use vstd::prelude::*;
use crate::schemas::{Column, Constraint, DataType, TableGeneralInfo, TableIn};
use crate::strings::{owned, str_eq};

verus! {

// ---------------------------------------------------------------------------
// Columns as the forms edit them
// ---------------------------------------------------------------------------

/// What a form shows of a column: its name, type and constraints.
pub open spec fn column_view(c: Column) -> (Seq<char>, DataType, Seq<Constraint>) {
    (c.name@, c.datatype, c.constraints@)
}

/// What a form shows of its columns.
pub open spec fn columns_view(cs: Seq<Column>) -> Seq<(Seq<char>, DataType, Seq<Constraint>)> {
    cs.map_values(|c: Column| column_view(c))
}

/// `i` is the first primary key constraint of `cs`.
pub open spec fn is_first_primary_key(cs: Seq<Constraint>, i: int) -> bool {
    &&& 0 <= i < cs.len()
    &&& cs[i] is PrimaryKey
    &&& forall|j: int| 0 <= j < i ==> !(#[trigger] cs[j] is PrimaryKey)
}

/// `i` is the first foreign key constraint of `cs`.
pub open spec fn is_first_foreign_key(cs: Seq<Constraint>, i: int) -> bool {
    &&& 0 <= i < cs.len()
    &&& cs[i] is ForeignKey
    &&& forall|j: int| 0 <= j < i ==> !(#[trigger] cs[j] is ForeignKey)
}

/// The position of the first primary key constraint.
pub open spec fn first_primary_key(cs: Seq<Constraint>) -> Option<int> {
    if exists|i: int| is_first_primary_key(cs, i) {
        Some(choose|i: int| is_first_primary_key(cs, i))
    } else {
        None
    }
}

/// The position of the first foreign key constraint.
pub open spec fn first_foreign_key(cs: Seq<Constraint>) -> Option<int> {
    if exists|i: int| is_first_foreign_key(cs, i) {
        Some(choose|i: int| is_first_foreign_key(cs, i))
    } else {
        None
    }
}

/// The constraints with the primary key dropped if there is one, added if not.
pub open spec fn toggled_primary_key(cs: Seq<Constraint>) -> Seq<Constraint> {
    match first_primary_key(cs) {
        Some(p) => cs.remove(p),
        None => cs.push(Constraint::PrimaryKey),
    }
}

/// The constraints with their foreign key, if any, replaced by one to `table`(`column`).
pub open spec fn with_foreign_key(cs: Seq<Constraint>, table: String, column: String) -> Seq<Constraint> {
    match first_foreign_key(cs) {
        Some(p) => cs.remove(p).push(Constraint::ForeignKey(table, column)),
        None => cs.push(Constraint::ForeignKey(table, column)),
    }
}

/// The constraints without their foreign key.
pub open spec fn without_foreign_key(cs: Seq<Constraint>) -> Seq<Constraint> {
    match first_foreign_key(cs) {
        Some(p) => cs.remove(p),
        None => cs,
    }
}

/// An edit of one column of a form.
#[derive(Debug, Clone, PartialEq)]
pub enum ColumnEdit {
    Name(String),
    Type(DataType),
    TogglePrimaryKey,
    SetForeignKey(String, String),
    DropForeignKey,
}

/// A column as shown, after an edit.
pub open spec fn spec_edit_view(
    v: (Seq<char>, DataType, Seq<Constraint>),
    edit: ColumnEdit,
) -> (Seq<char>, DataType, Seq<Constraint>) {
    match edit {
        ColumnEdit::Name(n) => (n@, v.1, v.2),
        ColumnEdit::Type(d) => (v.0, d, v.2),
        ColumnEdit::TogglePrimaryKey => (v.0, v.1, toggled_primary_key(v.2)),
        ColumnEdit::SetForeignKey(t, c) => (v.0, v.1, with_foreign_key(v.2, t, c)),
        ColumnEdit::DropForeignKey => (v.0, v.1, without_foreign_key(v.2)),
    }
}

/// The columns as shown after the edit of the column at `index`, when there is one.
pub open spec fn spec_edit_columns(
    cols: Seq<(Seq<char>, DataType, Seq<Constraint>)>,
    index: int,
    edit: ColumnEdit,
) -> Seq<(Seq<char>, DataType, Seq<Constraint>)> {
    if 0 <= index < cols.len() {
        cols.update(index, spec_edit_view(cols[index], edit))
    } else {
        cols
    }
}

/// The position of the first primary key constraint.
pub fn find_primary_key(cs: &Vec<Constraint>) -> (res: Option<usize>)
    ensures
        match res {
            Some(i) => first_primary_key(cs@) == Some(i as int),
            None => first_primary_key(cs@) is None,
        },
{
    let mut i: usize = 0;
    while i < cs.len()
        invariant
            i <= cs@.len(),
            forall|j: int| 0 <= j < i ==> !(#[trigger] cs@[j] is PrimaryKey),
        decreases cs@.len() - i,
    {
        if let Constraint::PrimaryKey = &cs[i] {
            proof {
                let k = choose|k: int| is_first_primary_key(cs@, k);
                assert(is_first_primary_key(cs@, i as int));
                if k < i {
                    assert(!(cs@[k] is PrimaryKey));
                } else if i < k {
                    assert(!(cs@[i as int] is PrimaryKey));
                }
            }
            return Some(i);
        }
        i = i + 1;
    }
    None
}

/// The position of the first foreign key constraint.
pub fn find_foreign_key(cs: &Vec<Constraint>) -> (res: Option<usize>)
    ensures
        match res {
            Some(i) => first_foreign_key(cs@) == Some(i as int),
            None => first_foreign_key(cs@) is None,
        },
{
    let mut i: usize = 0;
    while i < cs.len()
        invariant
            i <= cs@.len(),
            forall|j: int| 0 <= j < i ==> !(#[trigger] cs@[j] is ForeignKey),
        decreases cs@.len() - i,
    {
        if let Constraint::ForeignKey(_, _) = &cs[i] {
            proof {
                let k = choose|k: int| is_first_foreign_key(cs@, k);
                assert(is_first_foreign_key(cs@, i as int));
                if k < i {
                    assert(!(cs@[k] is ForeignKey));
                } else if i < k {
                    assert(!(cs@[i as int] is ForeignKey));
                }
            }
            return Some(i);
        }
        i = i + 1;
    }
    None
}

/// Applies an edit to a column.
pub fn edit_column(c: &mut Column, edit: ColumnEdit)
    ensures
        column_view(*final(c)) == spec_edit_view(column_view(*old(c)), edit),
{
    match edit {
        ColumnEdit::Name(n) => {
            c.name = n;
        },
        ColumnEdit::Type(d) => {
            c.datatype = d;
        },
        ColumnEdit::TogglePrimaryKey => {
            match find_primary_key(&c.constraints) {
                Some(p) => {
                    c.constraints.remove(p);
                },
                None => {
                    c.constraints.push(Constraint::PrimaryKey);
                },
            }
        },
        ColumnEdit::SetForeignKey(t, col) => {
            match find_foreign_key(&c.constraints) {
                Some(p) => {
                    c.constraints.remove(p);
                    c.constraints.push(Constraint::ForeignKey(t, col));
                },
                None => {
                    c.constraints.push(Constraint::ForeignKey(t, col));
                },
            }
        },
        ColumnEdit::DropForeignKey => {
            match find_foreign_key(&c.constraints) {
                Some(p) => {
                    c.constraints.remove(p);
                },
                None => {},
            }
        },
    }
}

/// Applies an edit to the column at `index`, when there is one.
pub fn edit_columns(cols: &mut Vec<Column>, index: usize, edit: ColumnEdit)
    ensures
        columns_view(final(cols)@) == spec_edit_columns(columns_view(old(cols)@), index as int, edit),
{
    if index < cols.len() {
        let ghost old_cols = cols@;
        let mut c = cols.remove(index);
        edit_column(&mut c, edit);
        cols.insert(index, c);
        assert(cols@ =~= old_cols.update(index as int, c));
        assert(columns_view(cols@) =~= spec_edit_columns(columns_view(old_cols), index as int, edit));
    }
}

/// What a form shows of a new, empty column.
pub open spec fn default_column_view() -> (Seq<char>, DataType, Seq<Constraint>) {
    (Seq::empty(), DataType::TEXT, Seq::empty())
}

/// What a form shows of the column `id` that a new table starts with.
pub open spec fn id_column_view() -> (Seq<char>, DataType, Seq<Constraint>) {
    ("id"@, DataType::INTEGER, seq![Constraint::PrimaryKey])
}

/// Appends a new, empty column.
pub fn push_default_column(cols: &mut Vec<Column>)
    ensures
        columns_view(final(cols)@) == columns_view(old(cols)@).push(default_column_view()),
{
    let c = Column::default();
    let ghost old_cols = cols@;
    cols.push(c);
    assert(column_view(c) =~= default_column_view());
    assert(columns_view(cols@) =~= columns_view(old_cols).push(default_column_view()));
}

/// Appends the column `id`, an integer primary key.
pub fn push_id_column(cols: &mut Vec<Column>)
    ensures
        columns_view(final(cols)@) == columns_view(old(cols)@).push(id_column_view()),
{
    let mut constraints: Vec<Constraint> = Vec::new();
    constraints.push(Constraint::PrimaryKey);
    let c = Column { name: owned("id"), datatype: DataType::INTEGER, constraints };
    let ghost old_cols = cols@;
    cols.push(c);
    assert(column_view(c) =~= id_column_view());
    assert(columns_view(cols@) =~= columns_view(old_cols).push(id_column_view()));
}

/// Removes the column at `index`, when there is one.
pub fn remove_column_at(cols: &mut Vec<Column>, index: usize)
    ensures
        columns_view(final(cols)@) == if index < old(cols)@.len() {
            columns_view(old(cols)@).remove(index as int)
        } else {
            columns_view(old(cols)@)
        },
{
    if index < cols.len() {
        let ghost old_cols = cols@;
        cols.remove(index);
        assert(columns_view(cols@) =~= columns_view(old_cols).remove(index as int));
    }
}

/// A copy of the description of a table.
pub fn duplicate_general_info(t: &TableGeneralInfo) -> (res: TableGeneralInfo)
    ensures
        res.table_name == t.table_name,
        res.column_names@ == t.column_names@,
        res.data_types@ == t.data_types@,
{
    let mut data_types: Vec<DataType> = Vec::new();
    let mut i: usize = 0;
    while i < t.data_types.len()
        invariant
            i <= t.data_types@.len(),
            data_types@ == t.data_types@.take(i as int),
        decreases t.data_types@.len() - i,
    {
        data_types.push(t.data_types[i]);
        i = i + 1;
        assert(data_types@ =~= t.data_types@.take(i as int));
    }
    assert(t.data_types@.take(t.data_types@.len() as int) =~= t.data_types@);
    TableGeneralInfo {
        table_name: t.table_name.clone(),
        column_names: crate::strings::duplicate_strings(&t.column_names),
        data_types,
    }
}

/// Whether two descriptions of tables read the same.
pub open spec fn same_general_info(a: TableGeneralInfo, b: TableGeneralInfo) -> bool {
    &&& a.table_name == b.table_name
    &&& a.column_names@ == b.column_names@
    &&& a.data_types@ == b.data_types@
}

/// A copy of a list of descriptions of tables.
pub fn duplicate_general_infos(v: &Vec<TableGeneralInfo>) -> (res: Vec<TableGeneralInfo>)
    ensures
        res@.len() == v@.len(),
        forall|i: int| 0 <= i < v@.len() ==> same_general_info(#[trigger] res@[i], v@[i]),
{
    let mut res: Vec<TableGeneralInfo> = Vec::new();
    let mut i: usize = 0;
    while i < v.len()
        invariant
            i <= v@.len(),
            res@.len() == i,
            forall|j: int| 0 <= j < i ==> same_general_info(#[trigger] res@[j], v@[j]),
        decreases v@.len() - i,
    {
        res.push(duplicate_general_info(&v[i]));
        i = i + 1;
    }
    res
}

// ---------------------------------------------------------------------------
// The form that creates a table
// ---------------------------------------------------------------------------

/// The messages of the form that creates a table.
#[derive(Debug, Clone, PartialEq)]
pub enum CreateTableFormMessage {
    SubmitCreateTable(TableIn),
    AddColumn,
    RemoveColumn(usize),
    UpdateColumnName(usize, String),
    UpdateColumnType(usize, DataType),
    UpdateTableName(String),
    TableCreated(String),
    SetOrRemovePrimaryKey(usize),
    AddForeignKey(usize, String, String),
    RemoveForeignKey(usize),
    ShowOrRemoveCreateTableForm,
    ToggleForeignKeyDropdown(usize),
    ToggleForeignKeyTable(usize, String),
}

/// The form that creates a table: the table being described, the tables a
/// foreign key can refer to, and which foreign key dropdown is open.
#[derive(Debug)]
pub struct CreateTableFormUI {
    pub create_table_input: TableIn,
    pub tables_general_info: Option<Vec<TableGeneralInfo>>,
    /// The table whose columns the open dropdown lists.
    pub active_foreign_key_table_within_dropdown: Option<String>,
    /// The column whose foreign key dropdown is open.
    pub active_foreign_key_dropdown_column: Option<usize>,
}

/// The columns of the form after a message.
pub open spec fn spec_form_columns(
    cols: Seq<(Seq<char>, DataType, Seq<Constraint>)>,
    message: CreateTableFormMessage,
) -> Seq<(Seq<char>, DataType, Seq<Constraint>)> {
    match message {
        CreateTableFormMessage::AddColumn => cols.push(default_column_view()),
        CreateTableFormMessage::RemoveColumn(i) => if i < cols.len() {
            cols.remove(i as int)
        } else {
            cols
        },
        CreateTableFormMessage::UpdateColumnName(i, n) => spec_edit_columns(cols, i as int, ColumnEdit::Name(n)),
        CreateTableFormMessage::UpdateColumnType(i, d) => spec_edit_columns(cols, i as int, ColumnEdit::Type(d)),
        CreateTableFormMessage::SetOrRemovePrimaryKey(i) => spec_edit_columns(
            cols,
            i as int,
            ColumnEdit::TogglePrimaryKey,
        ),
        CreateTableFormMessage::AddForeignKey(i, t, c) => spec_edit_columns(
            cols,
            i as int,
            ColumnEdit::SetForeignKey(t, c),
        ),
        CreateTableFormMessage::RemoveForeignKey(i) => spec_edit_columns(
            cols,
            i as int,
            ColumnEdit::DropForeignKey,
        ),
        CreateTableFormMessage::TableCreated(_) => Seq::empty(),
        CreateTableFormMessage::ShowOrRemoveCreateTableForm => if cols.len() == 0 {
            seq![id_column_view()]
        } else {
            cols
        },
        _ => cols,
    }
}

/// The name of the table in the form after a message.
pub open spec fn spec_form_table_name(name: Seq<char>, message: CreateTableFormMessage) -> Seq<char> {
    match message {
        CreateTableFormMessage::UpdateTableName(n) => n@,
        CreateTableFormMessage::TableCreated(_) => Seq::empty(),
        _ => name,
    }
}

/// The column whose foreign key dropdown is open, after a message.
pub open spec fn spec_form_dropdown_column(open: Option<usize>, message: CreateTableFormMessage) -> Option<usize> {
    match message {
        CreateTableFormMessage::AddForeignKey(_, _, _) => None,
        CreateTableFormMessage::RemoveForeignKey(_) => None,
        CreateTableFormMessage::ToggleForeignKeyDropdown(i) => if open == Some(i) {
            None
        } else {
            Some(i)
        },
        _ => open,
    }
}

/// Whether an optional string reads `s`.
pub open spec fn reads(o: Option<String>, s: Seq<char>) -> bool {
    o is Some && o.unwrap()@ == s
}

/// The table listed by the open dropdown, after a message.
pub open spec fn spec_form_dropdown_table(open: Option<String>, message: CreateTableFormMessage) -> Option<String> {
    match message {
        CreateTableFormMessage::AddForeignKey(_, _, _) => None,
        CreateTableFormMessage::RemoveForeignKey(_) => None,
        CreateTableFormMessage::ToggleForeignKeyTable(_, t) => if reads(open, t@) {
            None
        } else {
            Some(t)
        },
        _ => open,
    }
}

/// Opens or closes the dropdown of the table `table_name`.
pub fn toggle_table(open: &mut Option<String>, table_name: String)
    ensures
        *final(open) == if reads(*old(open), table_name@) {
            None
        } else {
            Some(table_name)
        },
{
    let same = match open {
        Some(t) => str_eq(t.as_str(), table_name.as_str()),
        None => false,
    };
    if same {
        *open = None;
    } else {
        *open = Some(table_name);
    }
}

impl CreateTableFormUI {
    /// An empty form over the tables a foreign key can refer to.
    pub fn new(tables_general_info: Option<Vec<TableGeneralInfo>>) -> (res: Self)
        ensures
            res.create_table_input.table_name@.len() == 0,
            res.create_table_input.columns@.len() == 0,
            res.tables_general_info == tables_general_info,
            res.active_foreign_key_dropdown_column is None,
            res.active_foreign_key_table_within_dropdown is None,
    {
        CreateTableFormUI {
            create_table_input: TableIn::default(),
            tables_general_info,
            active_foreign_key_dropdown_column: None,
            active_foreign_key_table_within_dropdown: None,
        }
    }

    /// Handles a message of the form.
    pub fn update(&mut self, message: CreateTableFormMessage)
        ensures
            columns_view(final(self).create_table_input.columns@) == spec_form_columns(
                columns_view(old(self).create_table_input.columns@),
                message,
            ),
            final(self).create_table_input.table_name@ == spec_form_table_name(
                old(self).create_table_input.table_name@,
                message,
            ),
            final(self).active_foreign_key_dropdown_column == spec_form_dropdown_column(
                old(self).active_foreign_key_dropdown_column,
                message,
            ),
            final(self).active_foreign_key_table_within_dropdown == spec_form_dropdown_table(
                old(self).active_foreign_key_table_within_dropdown,
                message,
            ),
            final(self).tables_general_info == old(self).tables_general_info,
    {
        match message {
            CreateTableFormMessage::AddColumn => {
                push_default_column(&mut self.create_table_input.columns);
            },
            CreateTableFormMessage::RemoveColumn(index) => {
                remove_column_at(&mut self.create_table_input.columns, index);
            },
            CreateTableFormMessage::UpdateColumnName(index, input) => {
                edit_columns(&mut self.create_table_input.columns, index, ColumnEdit::Name(input));
            },
            CreateTableFormMessage::UpdateColumnType(index, input) => {
                edit_columns(&mut self.create_table_input.columns, index, ColumnEdit::Type(input));
            },
            CreateTableFormMessage::SetOrRemovePrimaryKey(index) => {
                edit_columns(&mut self.create_table_input.columns, index, ColumnEdit::TogglePrimaryKey);
            },
            CreateTableFormMessage::AddForeignKey(index, table, column) => {
                edit_columns(
                    &mut self.create_table_input.columns,
                    index,
                    ColumnEdit::SetForeignKey(table, column),
                );
                self.active_foreign_key_dropdown_column = None;
                self.active_foreign_key_table_within_dropdown = None;
            },
            CreateTableFormMessage::RemoveForeignKey(index) => {
                edit_columns(&mut self.create_table_input.columns, index, ColumnEdit::DropForeignKey);
                self.active_foreign_key_dropdown_column = None;
                self.active_foreign_key_table_within_dropdown = None;
            },
            CreateTableFormMessage::UpdateTableName(input) => {
                self.create_table_input.table_name = input;
            },
            CreateTableFormMessage::TableCreated(_) => {
                self.create_table_input = TableIn::default();
                assert(columns_view(self.create_table_input.columns@) =~= Seq::empty());
            },
            CreateTableFormMessage::SubmitCreateTable(_) => {},
            CreateTableFormMessage::ShowOrRemoveCreateTableForm => {
                if self.create_table_input.columns.len() == 0 {
                    push_id_column(&mut self.create_table_input.columns);
                    assert(columns_view(self.create_table_input.columns@) =~= seq![id_column_view()]);
                }
            },
            CreateTableFormMessage::ToggleForeignKeyDropdown(index) => {
                let open = match self.active_foreign_key_dropdown_column {
                    Some(i) => i == index,
                    None => false,
                };
                if open {
                    self.active_foreign_key_dropdown_column = None;
                } else {
                    self.active_foreign_key_dropdown_column = Some(index);
                }
            },
            CreateTableFormMessage::ToggleForeignKeyTable(_, table_name) => {
                toggle_table(&mut self.active_foreign_key_table_within_dropdown, table_name);
            },
        }
    }
}

} // verus!
