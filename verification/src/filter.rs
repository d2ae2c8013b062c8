use vstd::prelude::*;
use crate::schemas::TableGeneralInfo;
use crate::strings::owned;

verus! {

/// Whether `regex::Regex::new` accepts the pattern.
pub uninterp spec fn regex_compiles(pattern: Seq<char>) -> bool;

/// What `regex::Regex::is_match` answers for the regex built from `pattern`
/// on `haystack`.
pub uninterp spec fn regex_is_match(pattern: Seq<char>, haystack: Seq<char>) -> bool;

/// Builds a regex from `pattern` with `regex::Regex::new` and, when that
/// succeeds, asks `regex::Regex::is_match` whether it matches `haystack`.
/// Trusted: the result is `Some` exactly when the pattern compiles, and then
/// holds what `is_match` answered; the empty pattern compiles and matches
/// every haystack (it matches the empty string at every position).
#[verifier::external_body]
fn match_pattern(pattern: &str, haystack: &str) -> (res: Option<bool>)
    ensures
        res is Some == regex_compiles(pattern@),
        res matches Some(b) ==> b == regex_is_match(pattern@, haystack@),
        pattern@.len() == 0 ==> res == Some(true),
{
    match regex::Regex::new(pattern) {
        Ok(re) => Some(re.is_match(haystack)),
        Err(_) => None,
    }
}

/// The pattern that filters tables by `filter`, ignoring case.
pub open spec fn spec_table_filter_pattern(filter: Seq<char>) -> Seq<char> {
    "(?i)"@ + filter
}

/// Whether the table `table_name` is listed under the filter `filter`: the
/// filter is a regular expression matched ignoring case; a filter that is
/// not a valid expression lists every table.
pub open spec fn table_listed(filter: Seq<char>, table_name: Seq<char>) -> bool {
    let p = spec_table_filter_pattern(filter);
    if regex_compiles(p) {
        regex_is_match(p, table_name)
    } else {
        true
    }
}

/// The pattern that filters tables by `filter`, ignoring case.
pub fn get_table_filter_regex(filter: &str) -> (res: String)
    ensures
        res@ == spec_table_filter_pattern(filter@),
{
    let mut p = owned("(?i)");
    p.append(filter);
    p
}

/// Whether the table `table_name` is listed under the filter `filter`.
pub fn table_matches_filter(filter: &str, table_name: &str) -> (res: bool)
    ensures
        res == table_listed(filter@, table_name@),
        regex_compiles("(?i)"@ + filter@) ==> res == regex_is_match("(?i)"@ + filter@, table_name@),
        !regex_compiles("(?i)"@ + filter@) ==> res,
{
    let pattern = get_table_filter_regex(filter);
    match match_pattern(pattern.as_str(), table_name) {
        Some(b) => b,
        None => {
            let empty = String::new();
            match match_pattern(empty.as_str(), table_name) {
                Some(b) => b,
                None => true,
            }
        },
    }
}

/// The names of the tables listed under `filter`, in order.
pub open spec fn spec_listed_tables(tables: Seq<TableGeneralInfo>, filter: Seq<char>) -> Seq<Seq<char>>
    decreases tables.len(),
{
    if tables.len() == 0 {
        Seq::empty()
    } else {
        let rest = spec_listed_tables(tables.drop_last(), filter);
        if table_listed(filter, tables.last().table_name@) {
            rest.push(tables.last().table_name@)
        } else {
            rest
        }
    }
}

/// The names of the tables listed under `filter`, in order.
pub fn filter_tables(tables: &Vec<TableGeneralInfo>, filter: &str) -> (res: Vec<String>)
    ensures
        crate::sql::views(res@) == spec_listed_tables(tables@, filter@),
{
    let mut res: Vec<String> = Vec::new();
    let mut i: usize = 0;
    while i < tables.len()
        invariant
            i <= tables@.len(),
            crate::sql::views(res@) == spec_listed_tables(tables@.take(i as int), filter@),
        decreases tables@.len() - i,
    {
        let ghost r0 = crate::sql::views(res@);
        if table_matches_filter(filter, tables[i].table_name.as_str()) {
            res.push(tables[i].table_name.clone());
            assert(crate::sql::views(res@) =~= r0.push(tables@[i as int].table_name@));
        }
        proof {
            let t1 = tables@.take(i + 1);
            assert(t1.drop_last() =~= tables@.take(i as int));
            assert(t1.last() == tables@[i as int]);
        }
        i = i + 1;
    }
    assert(tables@.take(tables@.len() as int) =~= tables@);
    res
}

} // verus!
