use blogpatch::paging::{
    gen_pagination_links, page_url, parse_page, query_window, total_pages, RequestUri,
};
use blogpatch::text::{join_strings, str_eq, u16_to_dec};

fn uri(path: &str, query: Vec<(&str, &str)>) -> RequestUri {
    RequestUri {
        path: path.to_string(),
        query: query.into_iter().map(|(k, v)| (k.to_string(), v.to_string())).collect(),
    }
}

#[test]
fn total_pages_is_the_ceiling_with_a_floor_of_one() {
    assert_eq!(total_pages(0, 10), 1);
    assert_eq!(total_pages(1, 10), 1);
    assert_eq!(total_pages(10, 10), 1);
    assert_eq!(total_pages(11, 10), 2);
    assert_eq!(total_pages(25, 5), 5);
    assert_eq!(total_pages(26, 5), 6);
    assert_eq!(total_pages(usize::MAX, 1), 0xffff);
}

#[test]
fn first_page_of_many_has_only_a_next_link() {
    let u = uri("/posts", vec![("page", "1")]);
    let links = gen_pagination_links(1, 3, &u);
    assert_eq!(links.prev, None);
    assert_eq!(links.next, Some("/posts?page=2".to_string()));
}

#[test]
fn last_page_of_many_has_only_a_previous_link() {
    let u = uri("/posts", vec![("page", "3")]);
    let links = gen_pagination_links(3, 3, &u);
    assert_eq!(links.prev, Some("/posts?page=2".to_string()));
    assert_eq!(links.next, None);
}

#[test]
fn a_single_page_has_no_links_at_all() {
    let u = uri("/posts", vec![]);
    let links = gen_pagination_links(1, 1, &u);
    assert_eq!(links.prev, None);
    assert_eq!(links.next, None);
}

#[test]
fn other_query_parameters_are_preserved_unchanged() {
    let u = uri("/api/posts", vec![("q", "rust"), ("page", "5"), ("per_page", "10")]);
    let links = gen_pagination_links(5, 9, &u);
    assert_eq!(links.prev, Some("/api/posts?q=rust&page=4&per_page=10".to_string()));
    assert_eq!(links.next, Some("/api/posts?q=rust&page=6&per_page=10".to_string()));
}

#[test]
fn a_missing_page_parameter_is_appended() {
    let u = uri("/api/posts", vec![("q", "verus")]);
    assert_eq!(page_url(&u, 2), "/api/posts?q=verus&page=2");
    let bare = uri("/api/posts", vec![]);
    assert_eq!(page_url(&bare, 3), "/api/posts?page=3");
}

#[test]
fn query_window_is_offset_and_limit() {
    assert_eq!(query_window(1, 10), (0, 10));
    assert_eq!(query_window(3, 10), (20, 10));
    assert_eq!(query_window(65535, 65535), (65534 * 65535, 65535));
}

#[test]
fn decimal_rendering_matches_the_standard_one() {
    assert_eq!(u16_to_dec(0), "0");
    assert_eq!(u16_to_dec(7), "7");
    assert_eq!(u16_to_dec(10), "10");
    assert_eq!(u16_to_dec(302), "302");
    assert_eq!(u16_to_dec(65535), "65535");
}

#[test]
fn joining_fragments_inserts_the_separator_between_pairs() {
    assert_eq!(join_strings(&vec![], ", "), "");
    assert_eq!(join_strings(&vec!["a".to_string()], ", "), "a");
    assert_eq!(join_strings(&vec!["a".to_string(), "b".to_string()], ", "), "a, b");
    assert_eq!(
        join_strings(&vec!["x".to_string(), "y".to_string(), "z".to_string()], "&"),
        "x&y&z"
    );
}

#[test]
fn lax_page_values_fall_back_to_the_first_page() {
    assert_eq!(parse_page(""), 1);
    assert_eq!(parse_page("0"), 1);
    assert_eq!(parse_page("1"), 1);
    assert_eq!(parse_page("17"), 17);
    assert_eq!(parse_page("65535"), 65535);
    assert_eq!(parse_page("65536"), 1);
    assert_eq!(parse_page("99999999999999999999"), 1);
    assert_eq!(parse_page("3a"), 1);
    assert_eq!(parse_page("-2"), 1);
    assert_eq!(parse_page(" 4"), 1);
}

#[test]
fn string_equality_is_character_exact() {
    assert!(str_eq("", ""));
    assert!(str_eq("page", "page"));
    assert!(!str_eq("page", "pages"));
    assert!(!str_eq("page", "Page"));
    assert!(str_eq("déjà", "déjà"));
}
