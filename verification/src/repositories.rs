//! The query-shaping rules of the data access layer: search terms, sort
//! columns and the interpretation of row counts.

use vstd::prelude::*;
use crate::errors::AppError;
use crate::text::{join, join_spec, text_lowercase, push_str, split_whitespace, str_eq, to_lowercase, views, words};

verus! {

/// One search word as a prefix query term: the lowercased word and ":*".
pub open spec fn fts_term(w: Seq<char>) -> Seq<char> {
    text_lowercase(w) + ":*"@
}

/// The full-text query for a search text: each word as a prefix term,
/// joined with " & " (all words must match).
pub open spec fn fts_query_spec(search: Seq<char>) -> Seq<char> {
    join_spec(words(search).map_values(|w: Seq<char>| fts_term(w)), " & "@)
}

/// The full-text query of an optional search text.
pub fn fts_query(search: Option<&str>) -> (r: Option<String>)
    ensures
        match search {
            Some(s) => r matches Some(q) && q@ == fts_query_spec(s@),
            None => r is None,
        },
{
    match search {
        None => None,
        Some(s) => {
            let ws = split_whitespace(s);
            let mut terms: Vec<String> = Vec::new();
            let n = ws.len();
            let mut i: usize = 0;
            while i < n
                invariant
                    n == ws@.len(),
                    views(ws@) == words(s@),
                    i <= n,
                    terms@.len() == i,
                    forall|k: int| 0 <= k < i ==> (#[trigger] terms@[k])@ == fts_term(ws@[k]@),
                decreases n - i,
            {
                let mut t = to_lowercase(ws[i].as_str());
                push_str(&mut t, ":*");
                terms.push(t);
                i = i + 1;
            }
            assert(views(terms@) =~= words(s@).map_values(|w: Seq<char>| fts_term(w))) by {
                assert forall|k: int| 0 <= k < n implies views(terms@)[k] == fts_term(words(s@)[k]) by {
                    assert(views(ws@)[k] == ws@[k]@);
                }
            }
            Some(join(&terms, " & "))
        },
    }
}

/// The LIKE pattern of a search text: the lowercased text between '%'.
pub fn like_pattern(search: Option<&str>) -> (r: Option<String>)
    ensures
        match search {
            Some(s) => r matches Some(p) && p@ == "%"@ + text_lowercase(s@) + "%"@,
            None => r is None,
        },
{
    match search {
        None => None,
        Some(s) => {
            let mut p = String::new();
            push_str(&mut p, "%");
            let lower = to_lowercase(s);
            push_str(&mut p, lower.as_str());
            push_str(&mut p, "%");
            assert(p@ =~= "%"@ + text_lowercase(s@) + "%"@);
            Some(p)
        },
    }
}

/// The column a list of racks is sorted by.
pub open spec fn rack_sort_column_spec(sort_by: Seq<char>) -> Seq<char> {
    if sort_by == "code"@ { "r.code"@ }
    else if sort_by == "zone"@ { "r.zone"@ }
    else if sort_by == "level"@ { "r.level"@ }
    else if sort_by == "updated_at"@ { "r.updated_at"@ }
    else { "r.created_at"@ }
}

/// The column to sort racks by: code, zone, level or updated_at, and
/// otherwise the creation time.
pub fn rack_sort_column(sort_by: &str) -> (r: &'static str)
    ensures
        r@ == rack_sort_column_spec(sort_by@),
{
    if str_eq(sort_by, "code") { "r.code" }
    else if str_eq(sort_by, "zone") { "r.zone" }
    else if str_eq(sort_by, "level") { "r.level" }
    else if str_eq(sort_by, "updated_at") { "r.updated_at" }
    else { "r.created_at" }
}

/// The column a list of users is sorted by, written under the alias `w`
/// (the users list query itself names its table `u`).
pub open spec fn user_sort_column_spec(sort_by: Seq<char>) -> Seq<char> {
    if sort_by == "name"@ { "w.name"@ }
    else if sort_by == "email"@ { "w.email"@ }
    else if sort_by == "updated_at"@ { "w.updated_at"@ }
    else { "w.created_at"@ }
}

/// The column to sort users by: name, email or updated_at, and otherwise
/// the creation time.
pub fn user_sort_column(sort_by: &str) -> (r: &'static str)
    ensures
        r@ == user_sort_column_spec(sort_by@),
{
    if str_eq(sort_by, "name") { "w.name" }
    else if str_eq(sort_by, "email") { "w.email" }
    else if str_eq(sort_by, "updated_at") { "w.updated_at" }
    else { "w.created_at" }
}

/// A new user's role must exist: refused with a validation error naming
/// the role otherwise.
pub fn require_role_exists(role: &str, exists: bool) -> (r: Result<(), AppError>)
    ensures
        exists ==> r is Ok,
        !exists ==> (r matches Err(AppError::Validation(m)) && m@ == "Role '"@ + role@ + "' does not exist"@),
{
    if !exists {
        let mut m = String::new();
        push_str(&mut m, "Role '");
        push_str(&mut m, role);
        push_str(&mut m, "' does not exist");
        assert(m@ =~= "Role '"@ + role@ + "' does not exist"@);
        return Err(AppError::Validation(m));
    }
    Ok(())
}

/// The id of a role looked up by name; an unknown name is not found.
pub fn role_id_or_not_found(role: &str, found: Option<i64>) -> (r: Result<i64, AppError>)
    ensures
        match found {
            Some(id) => r == Ok::<i64, AppError>(id),
            None => r matches Err(AppError::NotFound(m)) && m@ == "Role name "@ + role@,
        },
{
    match found {
        Some(id) => Ok(id),
        None => {
            let mut m = String::new();
            push_str(&mut m, "Role name ");
            push_str(&mut m, role);
            assert(m@ =~= "Role name "@ + role@);
            Err(AppError::NotFound(m))
        },
    }
}

/// Whether a statement changed anything, from its affected row count.
pub fn any_rows_affected(rows: u64) -> (r: bool)
    ensures
        r == (rows > 0),
{
    rows > 0
}

} // verus!

verus! {

/// The full-text query has one term per search word, in the order of the
/// words, each term the lowercased word followed by ":*", the terms
/// separated by " & "; a search without words gives an empty query.
pub proof fn lemma_fts_query_terms(search: Seq<char>)
    ensures
        fts_query_spec(search) == join_spec(
            Seq::new(words(search).len(), |k: int| text_lowercase(words(search)[k]) + ":*"@), " & "@),
        words(search).len() == 0 ==> fts_query_spec(search) == Seq::<char>::empty(),
{
    let ws = words(search);
    assert(ws.map_values(|w: Seq<char>| fts_term(w))
        =~= Seq::new(ws.len(), |k: int| text_lowercase(ws[k]) + ":*"@));
}

} // verus!

verus! {

/// Racks are sorted by the requested field, as column `r.<field>`, when
/// it is code, zone, level, updated_at or created_at, and otherwise by
/// `r.created_at`. Users are sorted by `w.<field>` when the field is
/// name, email, updated_at or created_at, and otherwise by
/// `w.created_at`.
pub proof fn lemma_list_sorting(sort_by: Seq<char>)
    ensures
        (sort_by == "code"@ || sort_by == "zone"@ || sort_by == "level"@ || sort_by == "updated_at"@
            || sort_by == "created_at"@) ==> rack_sort_column_spec(sort_by) == "r."@ + sort_by,
        !(sort_by == "code"@ || sort_by == "zone"@ || sort_by == "level"@ || sort_by == "updated_at"@
            || sort_by == "created_at"@) ==> rack_sort_column_spec(sort_by) == "r.created_at"@,
        (sort_by == "name"@ || sort_by == "email"@ || sort_by == "updated_at"@ || sort_by == "created_at"@)
            ==> user_sort_column_spec(sort_by) == "w."@ + sort_by,
        !(sort_by == "name"@ || sort_by == "email"@ || sort_by == "updated_at"@ || sort_by == "created_at"@)
            ==> user_sort_column_spec(sort_by) == "w.created_at"@,
{
    reveal_strlit("code");
    reveal_strlit("zone");
    reveal_strlit("level");
    reveal_strlit("name");
    reveal_strlit("email");
    reveal_strlit("updated_at");
    reveal_strlit("created_at");
    reveal_strlit("r.");
    reveal_strlit("w.");
    reveal_strlit("r.code");
    reveal_strlit("r.zone");
    reveal_strlit("r.level");
    reveal_strlit("r.updated_at");
    reveal_strlit("r.created_at");
    reveal_strlit("w.name");
    reveal_strlit("w.email");
    reveal_strlit("w.updated_at");
    reveal_strlit("w.created_at");
    assert("r."@ + "code"@ =~= "r.code"@);
    assert("r."@ + "zone"@ =~= "r.zone"@);
    assert("r."@ + "level"@ =~= "r.level"@);
    assert("r."@ + "updated_at"@ =~= "r.updated_at"@);
    assert("r."@ + "created_at"@ =~= "r.created_at"@);
    assert("w."@ + "name"@ =~= "w.name"@);
    assert("w."@ + "email"@ =~= "w.email"@);
    assert("w."@ + "updated_at"@ =~= "w.updated_at"@);
    assert("w."@ + "created_at"@ =~= "w.created_at"@);
}

} // verus!
