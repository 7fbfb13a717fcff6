//! The statement texts the handlers execute: the mutation templates into
//! which a compiled SET clause is spliced, and the filters selecting a
//! post's neighbours.

use vstd::prelude::*;

verus! {

/// The update statement around a compiled SET clause: it patches the post
/// named by the bound identifier and reads its detailed view back.
pub open spec fn update_post_query_spec(set_clause: Seq<char>) -> Seq<char> {
    "SELECT (\n    UPDATE BlogPost\n    FILTER .id = <uuid>$id\n    SET {\n        "@ + set_clause
        + "\n    }\n) {\n    id,\n    title,\n    slug,\n    is_published,\n    published_at,\n    created_at,\n    updated_at,\n    categories: { id, title, slug },\n    body,\n    format,\n    locale,\n    excerpt,\n    html,\n    seo_description,\n    og_image,\n}"@
}

pub fn build_update_post_query(set_clause: &str) -> (r: String)
    ensures
        r@ == update_post_query_spec(set_clause@),
{
    let r = String::from_str("SELECT (\n    UPDATE BlogPost\n    FILTER .id = <uuid>$id\n    SET {\n        ")
        .concat(set_clause)
        .concat("\n    }\n) {\n    id,\n    title,\n    slug,\n    is_published,\n    published_at,\n    created_at,\n    updated_at,\n    categories: { id, title, slug },\n    body,\n    format,\n    locale,\n    excerpt,\n    html,\n    seo_description,\n    og_image,\n}");
    proof {
        assert(r@ =~= update_post_query_spec(set_clause@));
    }
    r
}

/// The insert statement around a compiled SET clause: it creates the post
/// and reads its detailed view back.
pub open spec fn insert_post_query_spec(set_clause: Seq<char>) -> Seq<char> {
    "SELECT (\n    INSERT BlogPost {\n        "@ + set_clause
        + "\n    }\n) {\n    id,\n    title,\n    slug,\n    is_published,\n    published_at,\n    created_at,\n    updated_at,\n    categories: { id, title, slug },\n    body,\n    format,\n    locale,\n    excerpt,\n    html,\n    seo_description,\n    og_image,\n}"@
}

pub fn build_insert_post_query(set_clause: &str) -> (r: String)
    ensures
        r@ == insert_post_query_spec(set_clause@),
{
    let r = String::from_str("SELECT (\n    INSERT BlogPost {\n        ")
        .concat(set_clause)
        .concat("\n    }\n) {\n    id,\n    title,\n    slug,\n    is_published,\n    published_at,\n    created_at,\n    updated_at,\n    categories: { id, title, slug },\n    body,\n    format,\n    locale,\n    excerpt,\n    html,\n    seo_description,\n    og_image,\n}");
    proof {
        assert(r@ =~= insert_post_query_spec(set_clause@));
    }
    r
}

/// The filter selecting a published neighbour of a post: strictly newer or
/// strictly older than the given timestamp, optionally within one category.
pub open spec fn adjacent_post_filter_spec(newer: bool, with_category: bool) -> Seq<char> {
    (if newer {
        ".created_at > <datetime>$created_at AND .is_published = true"@
    } else {
        ".created_at < <datetime>$created_at AND .is_published = true"@
    }) + if with_category {
        " AND .categories.slug = <str>$slug"@
    } else {
        Seq::empty()
    }
}

pub fn adjacent_post_filter(newer: bool, with_category: bool) -> (r: String)
    ensures
        r@ == adjacent_post_filter_spec(newer, with_category),
{
    let base = if newer {
        String::from_str(".created_at > <datetime>$created_at AND .is_published = true")
    } else {
        String::from_str(".created_at < <datetime>$created_at AND .is_published = true")
    };
    let r = if with_category {
        base.concat(" AND .categories.slug = <str>$slug")
    } else {
        base
    };
    proof {
        assert(r@ =~= adjacent_post_filter_spec(newer, with_category));
    }
    r
}

/// The statement selecting a post's neighbour: the summary view of the
/// first post matching the adjacency filter, nearest first.
pub open spec fn adjacent_post_query_spec(newer: bool, with_category: bool) -> Seq<char> {
    "SELECT BlogPost {\n    id,\n    title,\n    slug,\n    is_published,\n    published_at,\n    created_at,\n    updated_at,\n    categories: { id, title, slug },\n}\nFILTER "@
        + adjacent_post_filter_spec(newer, with_category) + (if newer {
        " ORDER BY .created_at ASC LIMIT 1"@
    } else {
        " ORDER BY .created_at DESC LIMIT 1"@
    })
}

pub fn build_adjacent_post_query(newer: bool, with_category: bool) -> (r: String)
    ensures
        r@ == adjacent_post_query_spec(newer, with_category),
{
    let filter = adjacent_post_filter(newer, with_category);
    let head = String::from_str("SELECT BlogPost {\n    id,\n    title,\n    slug,\n    is_published,\n    published_at,\n    created_at,\n    updated_at,\n    categories: { id, title, slug },\n}\nFILTER ");
    let tail = if newer {
        " ORDER BY .created_at ASC LIMIT 1"
    } else {
        " ORDER BY .created_at DESC LIMIT 1"
    };
    let r = head.concat(filter.as_str()).concat(tail);
    proof {
        assert(r@ =~= adjacent_post_query_spec(newer, with_category));
    }
    r
}

} // verus!
