use vstd::prelude::*;
use crate::ordering::{lemma_lex_total, lemma_lex_transitive, lex_le, lex_le_str};
use crate::schemas::{Column, Constraint, DataType, TableGeneralInfo, TableIn};
use crate::strings::owned;
use vstd::multiset::Multiset;

verus! {

broadcast use {vstd::seq_lib::group_to_multiset_ensures, vstd::multiset::group_multiset_axioms};

/// A value that is sorted by a name.
pub trait Named {
    spec fn sort_name(&self) -> Seq<char>;

    fn name_str(&self) -> (res: &str)
        ensures
            res@ == self.sort_name(),
    ;
}

impl Named for Column {
    open spec fn sort_name(&self) -> Seq<char> {
        self.name@
    }

    fn name_str(&self) -> (res: &str) {
        self.name.as_str()
    }
}

impl Named for TableGeneralInfo {
    open spec fn sort_name(&self) -> Seq<char> {
        self.table_name@
    }

    fn name_str(&self) -> (res: &str) {
        self.table_name.as_str()
    }
}

/// Whether the values are in the order of their names.
pub open spec fn sorted_by_name<T: Named>(s: Seq<T>) -> bool {
    forall|i: int, j: int| 0 <= i < j < s.len() ==> lex_le(#[trigger] s[i].sort_name(), #[trigger] s[j].sort_name())
}

/// `s` with `x` put in after the values, counted from the end, whose names
/// come after the name of `x`: in a sequence sorted by name, `x` lands
/// after every value whose name comes before or equals its own.
pub open spec fn insert_by_name<T: Named>(s: Seq<T>, x: T) -> Seq<T>
    decreases s.len(),
{
    if s.len() == 0 {
        seq![x]
    } else if lex_le(s.last().sort_name(), x.sort_name()) {
        s.push(x)
    } else {
        insert_by_name(s.drop_last(), x).push(s.last())
    }
}

/// The values in the order of their names; values with equal names keep
/// the order they had (a stable sort).
pub open spec fn spec_sorted_by_name<T: Named>(s: Seq<T>) -> Seq<T>
    decreases s.len(),
{
    if s.len() == 0 {
        s
    } else {
        insert_by_name(spec_sorted_by_name(s.drop_last()), s.last())
    }
}

/// In a sorted sequence, inserting by name puts the value at the first
/// position whose name comes after its own.
proof fn lemma_insert_by_name_at<T: Named>(s: Seq<T>, x: T, p: int)
    requires
        sorted_by_name(s),
        0 <= p <= s.len(),
        forall|j: int| 0 <= j < p ==> lex_le(#[trigger] s[j].sort_name(), x.sort_name()),
        p < s.len() ==> !lex_le(s[p].sort_name(), x.sort_name()),
    ensures
        insert_by_name(s, x) == s.take(p).push(x) + s.skip(p),
    decreases s.len(),
{
    if s.len() == 0 {
        assert(s.take(p).push(x) + s.skip(p) =~= seq![x]);
    } else if p == s.len() {
        assert(lex_le(s[s.len() - 1].sort_name(), x.sort_name()));
        assert(s.take(p).push(x) + s.skip(p) =~= s.push(x));
    } else {
        if lex_le(s.last().sort_name(), x.sort_name()) {
            if p < s.len() - 1 {
                assert(lex_le(s[p].sort_name(), s[s.len() - 1].sort_name()));
                lemma_lex_transitive(s[p].sort_name(), s.last().sort_name(), x.sort_name());
            }
        }
        let t = s.drop_last();
        assert(sorted_by_name(t)) by {
            assert forall|a: int, b: int| 0 <= a < b < t.len() implies lex_le(
                #[trigger] t[a].sort_name(),
                #[trigger] t[b].sort_name(),
            ) by {
                assert(t[a] == s[a] && t[b] == s[b]);
            }
        }
        assert forall|j: int| 0 <= j < p implies lex_le(#[trigger] t[j].sort_name(), x.sort_name()) by {
            assert(t[j] == s[j]);
        }
        if p < t.len() {
            assert(t[p] == s[p]);
        }
        lemma_insert_by_name_at(t, x, p);
        assert((t.take(p).push(x) + t.skip(p)).push(s.last()) =~= s.take(p).push(x) + s.skip(p));
    }
}

/// Sorts the values by name.
pub fn sort_by_name<T: Named>(v: &mut Vec<T>)
    ensures
        final(v)@ == spec_sorted_by_name(old(v)@),
        sorted_by_name(final(v)@),
        final(v)@.to_multiset() == old(v)@.to_multiset(),
{
    let ghost orig = v@;
    let mut rest: Vec<T> = Vec::new();
    std::mem::swap(v, &mut rest);
    let n = rest.len();
    let mut i: usize = 0;
    while i < n
        invariant
            n == orig.len(),
            i <= n,
            rest@.len() == n - i,
            sorted_by_name(v@),
            v@.to_multiset().add(rest@.to_multiset()) == orig.to_multiset(),
            v@ == spec_sorted_by_name(orig.take(i as int)),
            rest@ == orig.skip(i as int),
        decreases n - i,
    {
        let ghost r0 = rest@;
        let ghost v0 = v@;
        let x = rest.remove(0);
        let mut p: usize = 0;
        while p < v.len() && lex_le_str(v[p].name_str(), x.name_str())
            invariant
                v@ == v0,
                p <= v@.len(),
                forall|j: int| 0 <= j < p ==> lex_le((#[trigger] v@[j]).sort_name(), x.sort_name()),
            decreases v@.len() - p,
        {
            p = p + 1;
        }
        proof {
            if p < v0.len() {
                lemma_lex_total(v0[p as int].sort_name(), x.sort_name());
            }
        }
        proof {
            lemma_insert_by_name_at(v0, x, p as int);
        }
        v.insert(p, x);
        proof {
            assert(v@ =~= v0.take(p as int).push(x) + v0.skip(p as int));
            let o = orig.take(i + 1);
            assert(o.drop_last() =~= orig.take(i as int));
            assert(x == r0[0]);
            assert(r0[0] == orig[i as int]);
            assert(o.last() == orig[i as int]);
            assert(rest@ =~= orig.skip(i + 1));
            let w = v@;
            assert forall|a: int, b: int| 0 <= a < b < w.len() implies lex_le(
                #[trigger] w[a].sort_name(),
                #[trigger] w[b].sort_name(),
            ) by {
                if b < p {
                    assert(w[a] == v0[a] && w[b] == v0[b]);
                } else if b == p {
                    assert(w[a] == v0[a]);
                } else if a == p {
                    assert(w[b] == v0[b - 1]);
                    if p < b - 1 {
                        assert(w[p as int + 1] == v0[p as int]);
                        lemma_lex_transitive(x.sort_name(), v0[p as int].sort_name(), v0[b - 1].sort_name());
                    }
                } else if a < p {
                    assert(w[a] == v0[a] && w[b] == v0[b - 1]);
                    assert(lex_le(v0[a].sort_name(), v0[b - 1].sort_name()));
                } else {
                    assert(w[a] == v0[a - 1] && w[b] == v0[b - 1]);
                }
            }
            assert(r0.remove(0).to_multiset() == r0.to_multiset().remove(r0[0]));
            assert(v@.to_multiset() == v0.to_multiset().insert(x));
            assert(v@.to_multiset().add(rest@.to_multiset()) =~= orig.to_multiset());
        }
        i = i + 1;
    }
    assert(rest@.to_multiset() =~= Multiset::<T>::empty());
    assert(v@.to_multiset() =~= orig.to_multiset());
    assert(orig.take(n as int) =~= orig);
}

/// Sorts tables by name.
pub fn sort_by_table_name(tables: &mut Vec<TableGeneralInfo>)
    ensures
        final(tables)@ == spec_sorted_by_name(old(tables)@),
        sorted_by_name(final(tables)@),
        final(tables)@.to_multiset() == old(tables)@.to_multiset(),
{
    sort_by_name(tables);
}

/// Sorts tables by name.
pub fn sort_tables_general_info(tables: &mut Vec<TableGeneralInfo>)
    ensures
        final(tables)@ == spec_sorted_by_name(old(tables)@),
        sorted_by_name(final(tables)@),
        final(tables)@.to_multiset() == old(tables)@.to_multiset(),
{
    sort_by_name(tables);
}

/// Sorts columns by name.
pub fn sort_columns(columns: &mut Vec<Column>)
    ensures
        final(columns)@ == spec_sorted_by_name(old(columns)@),
        sorted_by_name(final(columns)@),
        final(columns)@.to_multiset() == old(columns)@.to_multiset(),
{
    sort_by_name(columns);
}

/// The table `users` with an integer primary key `id` and a text column `name`.
pub fn default_table_in() -> (res: TableIn)
    ensures
        res.table_name@ == "users"@,
        res.columns@.len() == 2,
        res.columns@[0].name@ == "id"@,
        res.columns@[0].datatype == DataType::INTEGER,
        res.columns@[0].constraints@ == seq![Constraint::PrimaryKey],
        res.columns@[1].name@ == "name"@,
        res.columns@[1].datatype == DataType::TEXT,
        res.columns@[1].constraints@.len() == 0,
{
    let mut columns: Vec<Column> = Vec::new();
    let mut id_constraints: Vec<Constraint> = Vec::new();
    id_constraints.push(Constraint::PrimaryKey);
    columns.push(Column { name: owned("id"), datatype: DataType::INTEGER, constraints: id_constraints });
    columns.push(Column { name: owned("name"), datatype: DataType::TEXT, constraints: Vec::new() });
    assert(columns@[0].constraints@ =~= seq![Constraint::PrimaryKey]);
    TableIn { table_name: owned("users"), columns }
}

/// The names and types of the columns of the table `table_in` describes.
pub fn create_btable_general(table_in: &TableIn) -> (res: TableGeneralInfo)
    ensures
        res.table_name == table_in.table_name,
        res.column_names@ == table_in.columns@.map_values(|c: Column| c.name),
        res.data_types@ == table_in.columns@.map_values(|c: Column| c.datatype),
{
    let mut column_names: Vec<String> = Vec::new();
    let mut data_types: Vec<DataType> = Vec::new();
    let mut i: usize = 0;
    while i < table_in.columns.len()
        invariant
            i <= table_in.columns@.len(),
            column_names@ == table_in.columns@.take(i as int).map_values(|c: Column| c.name),
            data_types@ == table_in.columns@.take(i as int).map_values(|c: Column| c.datatype),
        decreases table_in.columns@.len() - i,
    {
        column_names.push(table_in.columns[i].name.clone());
        data_types.push(table_in.columns[i].datatype);
        assert(table_in.columns@.take(i + 1) =~= table_in.columns@.take(i as int).push(table_in.columns@[i as int]));
        assert(column_names@ =~= table_in.columns@.take(i + 1).map_values(|c: Column| c.name));
        assert(data_types@ =~= table_in.columns@.take(i + 1).map_values(|c: Column| c.datatype));
        i = i + 1;
    }
    assert(table_in.columns@.take(table_in.columns@.len() as int) =~= table_in.columns@);
    TableGeneralInfo { table_name: table_in.table_name.clone(), column_names, data_types }
}

} // verus!
