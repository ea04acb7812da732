use warehouse_management_system_backend::pagination::{
    default_page, default_per_page, default_sort_by, default_sort_order, total_pages, ListQuery,
    PaginationMeta,
};

fn query(page: i64, per_page: i64, sort_by: &str, sort_order: &str) -> ListQuery {
    ListQuery { page, per_page, search: None, sort_by: sort_by.to_string(), sort_order: sort_order.to_string() }
}

#[test]
fn defaults() {
    assert_eq!(default_page(), 1);
    assert_eq!(default_per_page(), 20);
    assert_eq!(default_sort_by(), "created_at");
    assert_eq!(default_sort_order(), "desc");
}

#[test]
fn per_page_is_clamped() {
    assert_eq!(query(1, 0, "", "").per_page(), 1);
    assert_eq!(query(1, -5, "", "").per_page(), 1);
    assert_eq!(query(1, 20, "", "").per_page(), 20);
    assert_eq!(query(1, 1000, "", "").per_page(), 100);
}

#[test]
fn offset_counts_from_page_one() {
    assert_eq!(query(1, 20, "", "").offset(), 0);
    assert_eq!(query(3, 20, "", "").offset(), 40);
    assert_eq!(query(0, 20, "", "").offset(), 0);
    assert_eq!(query(-4, 20, "", "").offset(), 0);
    assert_eq!(query(2, 500, "", "").offset(), 100);
}

#[test]
fn sort_column_and_direction() {
    assert_eq!(query(1, 1, "name", "").sort_column(), "w.name");
    assert_eq!(query(1, 1, "updated_at", "").sort_column(), "w.updated_at");
    assert_eq!(query(1, 1, "address", "").sort_column(), "w.created_at");
    assert_eq!(query(1, 1, "", "asc").sort_direction(), "ASC");
    assert_eq!(query(1, 1, "", "AsC").sort_direction(), "ASC");
    assert_eq!(query(1, 1, "", "desc").sort_direction(), "DESC");
    assert_eq!(query(1, 1, "", "ascending").sort_direction(), "DESC");
}

fn float_pages(total: i64, per_page: i64) -> i64 {
    (total as f64 / per_page as f64).ceil() as i64
}

#[test]
fn total_pages_is_the_ceiling() {
    assert_eq!(total_pages(0, 20), 0);
    assert_eq!(total_pages(1, 20), 1);
    assert_eq!(total_pages(20, 20), 1);
    assert_eq!(total_pages(21, 20), 2);
    assert_eq!(total_pages(-5, 2), -2);
    assert_eq!(total_pages(5, -2), -2);
    assert_eq!(total_pages(-5, -2), 3);
    for t in [-41i64, -40, -1, 0, 1, 39, 40, 41, 999_999] {
        for p in [-7i64, -1, 1, 2, 3, 20, 100, i64::MAX] {
            assert_eq!(total_pages(t, p), float_pages(t, p), "{} / {}", t, p);
        }
    }
}

#[test]
fn total_pages_with_zero_page_size_matches_float_division() {
    assert_eq!(total_pages(5, 0), float_pages(5, 0));
    assert_eq!(total_pages(-5, 0), float_pages(-5, 0));
    assert_eq!(total_pages(0, 0), float_pages(0, 0));
    assert_eq!(total_pages(i64::MIN, -1), float_pages(i64::MIN, -1));
}

#[test]
fn pagination_meta() {
    let m = PaginationMeta::new(45, 2, 20);
    assert_eq!(m, PaginationMeta { total: 45, page: 2, per_page: 20, total_pages: 3 });
}
