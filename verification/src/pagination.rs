//! List requests (paging, search and sorting) and the paging metadata
//! of list responses.

use vstd::prelude::*;
use crate::text::{text_lowercase, push_str, str_eq, to_lowercase};

verus! {

/// The query of a list request.
#[derive(Debug, Clone, PartialEq, Eq)]
pub struct ListQuery {
    /// Page number, counted from 1.
    pub page: i64,
    /// Items per page.
    pub per_page: i64,
    /// Search text (case-insensitive, partial match).
    pub search: Option<String>,
    /// Sort field: name, created_at or updated_at.
    pub sort_by: String,
    /// Sort direction: asc or desc.
    pub sort_order: String,
}

/// Page number used when the request names none.
pub fn default_page() -> (r: i64)
    ensures
        r == 1,
{
    1
}

/// Page size used when the request names none.
pub fn default_per_page() -> (r: i64)
    ensures
        r == 20,
{
    20
}

/// Sort field used when the request names none.
pub fn default_sort_by() -> (r: String)
    ensures
        r@ == "created_at"@,
{
    let mut s = String::new();
    push_str(&mut s, "created_at");
    assert(s@ =~= "created_at"@);
    s
}

/// Sort direction used when the request names none.
pub fn default_sort_order() -> (r: String)
    ensures
        r@ == "desc"@,
{
    let mut s = String::new();
    push_str(&mut s, "desc");
    assert(s@ =~= "desc"@);
    s
}

/// The page size actually used: the requested one, kept within 1..=100.
pub open spec fn per_page_spec(per_page: i64) -> i64 {
    if per_page < 1 {
        1
    } else if per_page > 100 {
        100
    } else {
        per_page
    }
}

/// The number of items skipped before the requested page; pages below 1
/// count as page 1.
pub open spec fn offset_spec(page: i64, per_page: i64) -> int {
    (if page < 1 { 0 } else { page - 1 }) * per_page_spec(per_page)
}

/// The column a list of warehouses is sorted by.
pub open spec fn sort_column_spec(sort_by: Seq<char>) -> Seq<char> {
    if sort_by == "name"@ {
        "w.name"@
    } else if sort_by == "updated_at"@ {
        "w.updated_at"@
    } else {
        "w.created_at"@
    }
}

/// The SQL sort direction: ascending only when the lowercased request
/// says "asc".
pub open spec fn sort_direction_spec(sort_order: Seq<char>) -> Seq<char> {
    if text_lowercase(sort_order) == "asc"@ {
        "ASC"@
    } else {
        "DESC"@
    }
}

impl ListQuery {
    /// Items to skip: (page - 1) * page size, with page at least 1.
    pub fn offset(&self) -> (r: i64)
        requires
            offset_spec(self.page, self.per_page) <= i64::MAX,
        ensures
            r == offset_spec(self.page, self.per_page),
            r >= 0,
    {
        let page: i64 = if self.page < 1 { 1 } else { self.page };
        let pp = self.per_page();
        assert((page - 1) * pp >= 0) by (nonlinear_arith)
            requires page >= 1, pp >= 1;
        (page - 1) * pp
    }

    /// The page size, kept within 1..=100.
    pub fn per_page(&self) -> (r: i64)
        ensures
            r == per_page_spec(self.per_page),
            1 <= r <= 100,
    {
        if self.per_page < 1 {
            1
        } else if self.per_page > 100 {
            100
        } else {
            self.per_page
        }
    }

    /// The column to sort warehouses by.
    pub fn sort_column(&self) -> (r: &'static str)
        ensures
            r@ == sort_column_spec(self.sort_by@),
    {
        if str_eq(self.sort_by.as_str(), "name") {
            "w.name"
        } else if str_eq(self.sort_by.as_str(), "updated_at") {
            "w.updated_at"
        } else {
            "w.created_at"
        }
    }

    /// The SQL sort direction, "ASC" or "DESC".
    pub fn sort_direction(&self) -> (r: &'static str)
        ensures
            r@ == sort_direction_spec(self.sort_order@),
    {
        let lower = to_lowercase(self.sort_order.as_str());
        if str_eq(lower.as_str(), "asc") {
            "ASC"
        } else {
            "DESC"
        }
    }
}

/// The least integer not below `t / p`, for a positive `p`.
pub open spec fn ceil_div(t: int, p: int) -> int {
    if t % p == 0 { t / p } else { t / p + 1 }
}

/// The least integer not below `total / per_page`, for a nonzero page
/// size; for a zero page size, the value the service reports for an
/// unbounded quotient (largest or smallest `i64`, or 0 for 0 / 0); a
/// quotient beyond the `i64` range is reported as the largest `i64`.
pub open spec fn total_pages_spec(total: i64, per_page: i64) -> int {
    if per_page == 0 {
        if total > 0 { i64::MAX as int } else if total < 0 { i64::MIN as int } else { 0 }
    } else if per_page > 0 {
        ceil_div(total as int, per_page as int)
    } else if total == i64::MIN && per_page == -1 {
        i64::MAX as int
    } else {
        ceil_div(-(total as int), -(per_page as int))
    }
}

proof fn lemma_ceil_div_negative(u: int, p: int)
    requires
        u > 0,
        p > 0,
    ensures
        ceil_div(-u, p) == -(u / p),
{
    let t = -u;
    assert(u / p * p + u % p == u) by (nonlinear_arith) requires p > 0;
    assert(0 <= u % p < p) by (nonlinear_arith) requires p > 0;
    assert(t / p * p + t % p == t) by (nonlinear_arith) requires p > 0;
    assert(0 <= t % p < p) by (nonlinear_arith) requires p > 0;
    if u % p == 0 {
        assert(t == (-(u / p)) * p) by (nonlinear_arith) requires u / p * p == u, t == -u;
        assert(t / p == -(u / p)) by (nonlinear_arith)
            requires t == (-(u / p)) * p, t / p * p + t % p == t, 0 <= t % p < p, p > 0;
        assert(t % p == 0) by (nonlinear_arith)
            requires t == (-(u / p)) * p, t / p * p + t % p == t, t / p == -(u / p);
    } else {
        assert(t == (-(u / p) - 1) * p + (p - u % p)) by (nonlinear_arith)
            requires u / p * p + u % p == u, t == -u;
        assert(t / p == -(u / p) - 1) by (nonlinear_arith)
            requires t == (-(u / p) - 1) * p + (p - u % p), t / p * p + t % p == t,
                0 <= t % p < p, 0 < p - u % p < p, p > 0;
        assert(t % p != 0) by (nonlinear_arith)
            requires t == (-(u / p) - 1) * p + (p - u % p), t / p * p + t % p == t,
                t / p == -(u / p) - 1, 0 < p - u % p;
    }
}

proof fn lemma_ceil_div_nonnegative_bound(t: int, p: int)
    requires
        t >= 0,
        p > 0,
    ensures
        0 <= ceil_div(t, p) <= t || (t == 0 && ceil_div(t, p) == 0),
        ceil_div(t, p) <= t + 1,
{
    assert(t / p * p + t % p == t) by (nonlinear_arith) requires p > 0;
    assert(0 <= t % p < p) by (nonlinear_arith) requires p > 0;
    assert(0 <= t / p <= t) by (nonlinear_arith) requires p > 0, t >= 0;
    if t % p != 0 {
        assert(t / p < t) by (nonlinear_arith) requires p > 0, t >= 0, t / p * p + t % p == t, t % p > 0;
    }
}

/// Paging metadata of a list response.
#[derive(Debug, Clone, PartialEq, Eq)]
pub struct PaginationMeta {
    /// Number of matching items.
    pub total: i64,
    /// The page returned.
    pub page: i64,
    /// Items per page.
    pub per_page: i64,
    /// Number of pages.
    pub total_pages: i64,
}

/// The number of pages needed for `total` items at `per_page` a page.
pub fn total_pages(total: i64, per_page: i64) -> (r: i64)
    ensures
        r == total_pages_spec(total, per_page),
{
    if per_page == 0 {
        if total > 0 { i64::MAX } else if total < 0 { i64::MIN } else { 0 }
    } else {
        let t: i128 = if per_page > 0 { total as i128 } else { -(total as i128) };
        let p: u128 = if per_page > 0 { per_page as u128 } else { (-(per_page as i128)) as u128 };
        let ghost ti = t as int;
        let ghost pi = p as int;
        assert(ti == if per_page > 0 { total as int } else { -(total as int) });
        assert(pi == if per_page > 0 { per_page as int } else { -(per_page as int) });
        if t >= 0 {
            let tu = t as u128;
            let q0 = tu / p;
            let q: u128 = if tu % p == 0 { q0 } else { q0 + 1 };
            proof {
                lemma_ceil_div_nonnegative_bound(ti, pi);
                assert(q == ceil_div(ti, pi));
                if p >= 2 {
                    assert(q0 * 2 <= tu) by (nonlinear_arith) requires p >= 2, q0 == tu / p;
                } else {
                    assert(p == 1);
                    assert(q0 == tu) by (nonlinear_arith) requires p == 1, q0 == tu / p;
                    assert(tu % p == 0) by (nonlinear_arith) requires p == 1;
                }
                if q > 9223372036854775807 {
                    assert(total == i64::MIN && per_page == -1);
                }
            }
            if q > 9223372036854775807 {
                i64::MAX
            } else {
                q as i64
            }
        } else {
            let u: u128 = (-t) as u128;
            let q0 = u / p;
            proof {
                lemma_ceil_div_negative(-ti, pi);
                assert(q0 <= u) by (nonlinear_arith) requires p >= 1, q0 == u / p;
            }
            -(q0 as i128) as i64
        }
    }
}

impl PaginationMeta {
    /// Paging metadata for a page of a list of `total` items.
    pub fn new(total: i64, page: i64, per_page: i64) -> (r: PaginationMeta)
        ensures
            r.total == total,
            r.page == page,
            r.per_page == per_page,
            r.total_pages == total_pages_spec(total, per_page),
    {
        PaginationMeta { total, page, per_page, total_pages: total_pages(total, per_page) }
    }
}

/// With a positive page size, the pages hold every item and no page is
/// wasted: `total_pages` pages of `per_page` items cover `total` items,
/// and one page fewer does not.
pub proof fn lemma_total_pages_cover(total: i64, per_page: i64)
    requires
        per_page >= 1,
        total >= 0,
    ensures
        total_pages_spec(total, per_page) * per_page >= total,
        (total_pages_spec(total, per_page) - 1) * per_page < total || total == 0,
        total_pages_spec(total, per_page) >= 0,
{
    let t = total as int;
    let p = per_page as int;
    assert(t / p * p + t % p == t) by (nonlinear_arith) requires p > 0;
    assert(0 <= t % p < p) by (nonlinear_arith) requires p > 0;
    assert(t / p >= 0) by (nonlinear_arith) requires p > 0, t >= 0;
    if t % p == 0 {
        if t > 0 {
            assert((t / p - 1) * p < t) by (nonlinear_arith) requires t / p * p == t, p > 0;
        }
    } else {
        assert((t / p + 1) * p >= t) by (nonlinear_arith) requires t / p * p + t % p == t, t % p < p;
        assert((t / p) * p < t) by (nonlinear_arith) requires t / p * p + t % p == t, t % p > 0;
    }
}

} // verus!

verus! {

/// The page size is the request clamped to 1..=100: a size within that
/// range is used unchanged, a smaller one becomes 1 and a larger one 100.
/// The offset skips the whole pages before the requested one (none for a
/// page number of 1 or less).
pub proof fn lemma_page_size_and_offset(page: i64, per_page: i64)
    ensures
        1 <= per_page <= 100 ==> per_page_spec(per_page) == per_page,
        per_page < 1 ==> per_page_spec(per_page) == 1,
        per_page > 100 ==> per_page_spec(per_page) == 100,
        page <= 1 ==> offset_spec(page, per_page) == 0,
        page >= 1 && 1 <= per_page <= 100 ==> offset_spec(page, per_page) == (page - 1) * per_page,
        page >= 1 ==> offset_spec(page, per_page) == (page - 1) * per_page_spec(per_page),
{
}

} // verus!

verus! {

/// Warehouses are sorted by the requested field, as column `w.<field>`,
/// when it is name, updated_at or created_at, and otherwise by
/// `w.created_at`; the direction is ascending exactly when the request
/// says "asc" in any letter case.
pub proof fn lemma_warehouse_sorting(sort_by: Seq<char>, sort_order: Seq<char>)
    ensures
        (sort_by == "name"@ || sort_by == "updated_at"@ || sort_by == "created_at"@)
            ==> sort_column_spec(sort_by) == "w."@ + sort_by,
        !(sort_by == "name"@ || sort_by == "updated_at"@ || sort_by == "created_at"@)
            ==> sort_column_spec(sort_by) == "w.created_at"@,
        sort_direction_spec(sort_order) == (if text_lowercase(sort_order) == "asc"@ { "ASC"@ } else { "DESC"@ }),
        sort_order == "asc"@ || sort_order == "ASC"@ ==> sort_direction_spec(sort_order) == "ASC"@,
        sort_order == "desc"@ ==> sort_direction_spec(sort_order) == "DESC"@,
{
    reveal_strlit("name");
    reveal_strlit("updated_at");
    reveal_strlit("created_at");
    reveal_strlit("w.");
    reveal_strlit("w.name");
    reveal_strlit("w.updated_at");
    reveal_strlit("w.created_at");
    reveal_strlit("asc");
    reveal_strlit("ASC");
    reveal_strlit("desc");
    assert("w."@ + "name"@ =~= "w.name"@);
    assert("w."@ + "updated_at"@ =~= "w.updated_at"@);
    assert("w."@ + "created_at"@ =~= "w.created_at"@);
    assert(crate::text::all_ascii("asc"@));
    assert("asc"@.map_values(|c: char| crate::text::ascii_lower_char(c)) =~= "asc"@);
    assert(crate::text::all_ascii("ASC"@));
    assert("ASC"@.map_values(|c: char| crate::text::ascii_lower_char(c)) =~= "asc"@);
    assert(crate::text::all_ascii("desc"@));
    assert("desc"@.map_values(|c: char| crate::text::ascii_lower_char(c)) =~= "desc"@);
}

} // verus!
