//! The list-view envelope: item count, pagination links and the items
//! themselves, with its builder methods.

use vstd::prelude::*;
use crate::paging::PaginationLinks;

verus! {

/// The envelope of a list view: how many items the listing has in total,
/// the previous/next links, and the page's items.
#[derive(Debug)]
pub struct ObjectListResponse<T> {
    pub count: usize,
    pub links: PaginationLinks,
    pub objects: Vec<T>,
}

impl<T> Default for ObjectListResponse<T> {
    fn default() -> (r: Self)
        ensures
            r.count == 0,
            r.links.prev is None,
            r.links.next is None,
            r.objects@.len() == 0,
    {
        ObjectListResponse { count: 0, links: PaginationLinks { prev: None, next: None },
            objects: Vec::new() }
    }
}

impl<T> ObjectListResponse<T> {
    /// An envelope over the given items, counting them.
    pub fn new(objects: Vec<T>) -> (r: Self)
        ensures
            r.count == objects@.len(),
            r.objects == objects,
            r.links.prev is None,
            r.links.next is None,
    {
        let count = objects.len();
        ObjectListResponse { count, links: PaginationLinks { prev: None, next: None }, objects }
    }

    /// The same envelope with the total count replaced.
    pub fn with_count(self, count: usize) -> (r: Self)
        ensures
            r.count == count,
            r.links == self.links,
            r.objects == self.objects,
    {
        ObjectListResponse { count, ..self }
    }

    /// The same envelope with the pagination links replaced.
    pub fn with_pagination_links(self, links: PaginationLinks) -> (r: Self)
        ensures
            r.count == self.count,
            r.links == links,
            r.objects == self.objects,
    {
        ObjectListResponse { links, ..self }
    }

    /// The same envelope with the forward link set.
    pub fn with_next_url(self, next_url: String) -> (r: Self)
        ensures
            r.count == self.count,
            r.links.prev == self.links.prev,
            r.links.next == Some(next_url),
            r.objects == self.objects,
    {
        ObjectListResponse {
            links: PaginationLinks { prev: self.links.prev, next: Some(next_url) },
            ..self
        }
    }

    /// The same envelope with the backward link set.
    pub fn with_prev_url(self, prev_url: String) -> (r: Self)
        ensures
            r.count == self.count,
            r.links.prev == Some(prev_url),
            r.links.next == self.links.next,
            r.objects == self.objects,
    {
        ObjectListResponse {
            links: PaginationLinks { prev: Some(prev_url), next: self.links.next },
            ..self
        }
    }
}

} // verus!
