use blogpatch::queries::{
    adjacent_post_filter, build_adjacent_post_query, build_insert_post_query,
    build_update_post_query,
};

#[test]
fn the_update_statement_splices_the_set_clause() {
    let q = build_update_post_query("title := <optional str>$title");
    assert!(q.starts_with("SELECT (\n    UPDATE BlogPost\n    FILTER .id = <uuid>$id\n    SET {"));
    assert!(q.contains("title := <optional str>$title"));
    assert!(q.contains("seo_description,\n    og_image,\n}"));
}

#[test]
fn the_insert_statement_splices_the_set_clause() {
    let q = build_insert_post_query("title := <str>$title");
    assert!(q.starts_with("SELECT (\n    INSERT BlogPost {"));
    assert!(q.contains("title := <str>$title"));
    assert!(q.contains("categories: { id, title, slug },"));
}

#[test]
fn neighbour_filters_compare_strictly_and_only_published_posts() {
    assert_eq!(
        adjacent_post_filter(false, false),
        ".created_at < <datetime>$created_at AND .is_published = true"
    );
    assert_eq!(
        adjacent_post_filter(true, false),
        ".created_at > <datetime>$created_at AND .is_published = true"
    );
    assert_eq!(
        adjacent_post_filter(true, true),
        ".created_at > <datetime>$created_at AND .is_published = true AND .categories.slug = <str>$slug"
    );
}

#[test]
fn neighbour_queries_order_towards_the_post() {
    let previous = build_adjacent_post_query(false, false);
    assert!(previous.ends_with(" ORDER BY .created_at DESC LIMIT 1"));
    let next = build_adjacent_post_query(true, true);
    assert!(next.ends_with(" ORDER BY .created_at ASC LIMIT 1"));
    assert!(next.contains(".categories.slug = <str>$slug"));
}
