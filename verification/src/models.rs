//! The entity shapes the handlers exchange with the database layer, with
//! their per-field type-cast tables. Identifiers are carried in 128-bit
//! form; timestamps are microseconds since the database's epoch.

use vstd::prelude::*;
use crate::values::DocFormat;
use crate::text::str_eq;

verus! {

/// A bare object reference: just the identifier.
#[derive(Debug, Clone, PartialEq, Eq, Structural)]
pub struct MinimalObject {
    pub id: u128,
}

/// One category of posts.
#[derive(Debug, Clone)]
pub struct BlogCategory {
    pub id: u128,
    pub title: String,
    pub slug: String,
}

/// A post as the list views read it: the summary fields and the categories,
/// without the body and its derived fields.
#[derive(Debug)]
pub struct RawBlogPost {
    pub id: u128,
    pub title: String,
    pub slug: String,
    pub is_published: Option<bool>,
    pub published_at: Option<i64>,
    pub created_at: i64,
    pub updated_at: Option<i64>,
    pub categories: Vec<BlogCategory>,
}

impl RawBlogPost {
    /// A blank post stamped with the given creation time (the caller
    /// supplies the clock reading; nothing here consults a clock).
    pub fn empty_at(created_at: i64) -> (r: RawBlogPost)
        ensures
            r.id == 0,
            r.title@ == Seq::<char>::empty(),
            r.slug@ == Seq::<char>::empty(),
            r.is_published == Some(false),
            r.published_at is None,
            r.created_at == created_at,
            r.updated_at is None,
            r.categories@.len() == 0,
    {
        RawBlogPost {
            id: 0,
            title: String::new(),
            slug: String::new(),
            is_published: Some(false),
            published_at: None,
            created_at,
            updated_at: None,
            categories: Vec::new(),
        }
    }

    /// The database cast of each summary field.
    pub open spec fn type_cast_spec(name: Seq<char>) -> Seq<char> {
        if name == "title"@ {
            "str"@
        } else if name == "slug"@ {
            "str"@
        } else if name == "is_published"@ {
            "bool"@
        } else if name == "published_at"@ {
            "optional datetime"@
        } else if name == "updated_at"@ {
            "optional datetime"@
        } else {
            "json"@
        }
    }

    pub fn type_cast_for_field(name: &str) -> (r: &'static str)
        ensures
            r@ == Self::type_cast_spec(name@),
    {
        if str_eq(name, "title") {
            "str"
        } else if str_eq(name, "slug") {
            "str"
        } else if str_eq(name, "is_published") {
            "bool"
        } else if str_eq(name, "published_at") {
            "optional datetime"
        } else if str_eq(name, "updated_at") {
            "optional datetime"
        } else {
            "json"
        }
    }
}

/// A post as the detail views read it: every stored field, the derived
/// fields included.
#[derive(Debug)]
pub struct DetailedBlogPost {
    pub id: u128,
    pub title: String,
    pub slug: String,
    pub is_published: Option<bool>,
    pub published_at: Option<i64>,
    pub created_at: i64,
    pub updated_at: Option<i64>,
    pub categories: Vec<BlogCategory>,
    pub body: Option<String>,
    pub format: DocFormat,
    pub locale: Option<String>,
    pub excerpt: Option<String>,
    pub html: Option<String>,
    pub seo_description: Option<String>,
    pub og_image: Option<String>,
}

impl DetailedBlogPost {
    /// A blank post stamped with the given creation time (the caller
    /// supplies the clock reading; nothing here consults a clock).
    pub fn empty_at(created_at: i64) -> (r: DetailedBlogPost)
        ensures
            r.id == 0,
            r.title@ == Seq::<char>::empty(),
            r.slug@ == Seq::<char>::empty(),
            r.is_published == Some(false),
            r.published_at is None,
            r.created_at == created_at,
            r.updated_at is None,
            r.categories@.len() == 0,
            r.body is None,
            r.format == DocFormat::Md,
            r.locale is None,
            r.excerpt is None,
            r.html is None,
            r.seo_description is None,
            r.og_image is None,
    {
        DetailedBlogPost {
            id: 0,
            title: String::new(),
            slug: String::new(),
            is_published: Some(false),
            published_at: None,
            created_at,
            updated_at: None,
            categories: Vec::new(),
            body: None,
            format: DocFormat::Md,
            locale: None,
            excerpt: None,
            html: None,
            seo_description: None,
            og_image: None,
        }
    }

    /// The database cast of each stored field.
    pub open spec fn type_cast_spec(name: Seq<char>) -> Seq<char> {
        if name == "is_published"@ {
            "bool"@
        } else if name == "format"@ {
            "DocFormat"@
        } else {
            "str"@
        }
    }

    pub fn type_cast_for_field(name: &str) -> (r: &'static str)
        ensures
            r@ == Self::type_cast_spec(name@),
    {
        if str_eq(name, "is_published") {
            "bool"
        } else if str_eq(name, "format") {
            "DocFormat"
        } else {
            "str"
        }
    }
}

} // verus!
