//! The pagination link generator: a pure transformation from the current
//! page number, the total page count and the request's address to the
//! previous/next page links, rewriting only the `page` query parameter and
//! preserving everything else.

use vstd::prelude::*;
use crate::text::{dec_str, str_eq, u16_to_dec};

verus! {

/// Page window query parameters, as a caller supplies them.
#[derive(Debug, Clone)]
pub struct Paging {
    pub page: Option<u16>,
    pub per_page: Option<u8>,
}

/// The previous/next page links of a list view.
#[derive(Debug, Clone)]
pub struct PaginationLinks {
    pub prev: Option<String>,
    pub next: Option<String>,
}

impl Default for PaginationLinks {
    fn default() -> (r: Self)
        ensures
            r.prev is None,
            r.next is None,
    {
        PaginationLinks { prev: None, next: None }
    }
}

/// A request's address: its path and its query parameters, in order.
#[derive(Debug, Clone)]
pub struct RequestUri {
    pub path: String,
    pub query: Vec<(String, String)>,
}

/// The page count of a listing: the total item count divided into pages of
/// `size`, rounded up, floored at one page even for an empty listing, and
/// saturated at the largest page number.
pub open spec fn spec_total_pages(total: nat, size: nat) -> nat
    recommends
        size >= 1,
{
    let c = total / size + if total % size == 0 {
        0nat
    } else {
        1nat
    };
    if c == 0 {
        1
    } else if c > 0xffff {
        0xffff
    } else {
        c
    }
}

/// Compute a listing's page count.
pub fn total_pages(total_items: usize, page_size: usize) -> (r: u16)
    requires
        page_size >= 1,
    ensures
        r as nat == spec_total_pages(total_items as nat, page_size as nat),
        r >= 1,
{
    let q = total_items / page_size;
    let rem = total_items % page_size;
    proof {
        assert(total_items / page_size <= total_items) by (nonlinear_arith)
            requires
                page_size >= 1,
        ;
        if rem != 0 {
            assert(page_size >= 2);
            assert(total_items / page_size < total_items) by (nonlinear_arith)
                requires
                    page_size >= 2,
                    total_items % page_size != 0,
            ;
        }
    }
    let c = if rem != 0 {
        q + 1
    } else {
        q
    };
    if c == 0 {
        1
    } else if c > 0xffff {
        0xffff
    } else {
        c as u16
    }
}

/// The database window of a 1-based page: the row offset and the row limit.
pub fn query_window(page: u16, per_page: u16) -> (r: (i64, i64))
    requires
        page >= 1,
    ensures
        r.0 == (page - 1) as i64 * per_page as i64,
        r.1 == per_page as i64,
{
    let p = (page - 1) as i64;
    let s = per_page as i64;
    proof {
        assert(0 <= p * s <= 0xffff * 0xffff) by (nonlinear_arith)
            requires
                0 <= p <= 0xffff,
                0 <= s <= 0xffff,
        ;
    }
    (p * s, s)
}

/// The numeric value of a decimal digit character.
pub open spec fn digit_value(c: char) -> Option<nat> {
    if c == '0' {
        Some(0nat)
    } else if c == '1' {
        Some(1nat)
    } else if c == '2' {
        Some(2nat)
    } else if c == '3' {
        Some(3nat)
    } else if c == '4' {
        Some(4nat)
    } else if c == '5' {
        Some(5nat)
    } else if c == '6' {
        Some(6nat)
    } else if c == '7' {
        Some(7nat)
    } else if c == '8' {
        Some(8nat)
    } else if c == '9' {
        Some(9nat)
    } else {
        None
    }
}

/// The number an all-digit sequence denotes (the empty sequence denotes
/// zero); any other sequence denotes nothing.
pub open spec fn parse_dec(s: Seq<char>) -> Option<nat>
    decreases s.len(),
{
    if s.len() == 0 {
        Some(0nat)
    } else {
        match (parse_dec(s.drop_last()), digit_value(s.last())) {
            (Some(v), Some(d)) => Some(v * 10 + d),
            _ => None,
        }
    }
}

/// The 1-based page a raw query value denotes: a missing, malformed, zero
/// or oversized value falls back to the first page.
pub open spec fn spec_parse_page(s: Seq<char>) -> nat {
    if s.len() == 0 {
        1
    } else {
        match parse_dec(s) {
            Some(v) => if 1 <= v <= 0xffff {
                v
            } else {
                1
            },
            None => 1,
        }
    }
}

proof fn lemma_parse_dec_none_persists(s: Seq<char>, n: int)
    requires
        0 <= n <= s.len(),
        parse_dec(s.take(n)) is None,
    ensures
        parse_dec(s) is None,
    decreases s.len() - n,
{
    if n < s.len() {
        assert(s.take(n + 1).drop_last() =~= s.take(n));
        lemma_parse_dec_none_persists(s, n + 1);
    } else {
        assert(s.take(n) =~= s);
    }
}

proof fn lemma_parse_dec_grows(s: Seq<char>, n: int)
    requires
        0 <= n <= s.len(),
        parse_dec(s) is Some,
    ensures
        parse_dec(s.take(n)) is Some,
        parse_dec(s.take(n)).unwrap() <= parse_dec(s).unwrap(),
    decreases s.len() - n,
{
    if n < s.len() {
        lemma_parse_dec_grows(s, n + 1);
        assert(s.take(n + 1).drop_last() =~= s.take(n));
    } else {
        assert(s.take(n) =~= s);
    }
}

/// Read the 1-based page number of a raw query value, falling back to the
/// first page for anything that does not denote a usable page.
pub fn parse_page(s: &str) -> (r: u16)
    ensures
        r as nat == spec_parse_page(s@),
        r >= 1,
{
    let n = s.unicode_len();
    if n == 0 {
        return 1;
    }
    let mut acc: u32 = 0;
    let mut i: usize = 0;
    while i < n
        invariant
            i <= n,
            n == s@.len(),
            n >= 1,
            parse_dec(s@.take(i as int)) == Some(acc as nat),
            acc <= 0xffff,
        decreases n - i,
    {
        proof {
            assert(s@.take(i + 1).drop_last() =~= s@.take(i as int));
            assert(s@.take(i + 1).last() == s@[i as int]);
        }
        let c = s.get_char(i);
        let d: u32 = match c {
            '0' => 0,
            '1' => 1,
            '2' => 2,
            '3' => 3,
            '4' => 4,
            '5' => 5,
            '6' => 6,
            '7' => 7,
            '8' => 8,
            '9' => 9,
            _ => {
                proof {
                    assert(digit_value(s@[i as int]) is None);
                    assert(parse_dec(s@.take(i + 1)) is None);
                    lemma_parse_dec_none_persists(s@, i + 1);
                }
                return 1;
            },
        };
        let next = acc * 10 + d;
        if next > 0xffff {
            proof {
                assert(parse_dec(s@.take(i + 1)) == Some((acc * 10 + d) as nat));
                if parse_dec(s@) is Some {
                    lemma_parse_dec_grows(s@, i + 1);
                }
            }
            return 1;
        }
        acc = next;
        i = i + 1;
    }
    proof {
        assert(s@.take(n as int) =~= s@);
    }
    if acc == 0 {
        1
    } else {
        acc as u16
    }
}

/// One rendered query parameter.
pub open spec fn query_pair(kv: (Seq<char>, Seq<char>)) -> Seq<char> {
    kv.0 + "="@ + kv.1
}

/// A query string: the parameters rendered in order, separated by `&`.
pub open spec fn query_string(q: Seq<(Seq<char>, Seq<char>)>) -> Seq<char>
    decreases q.len(),
{
    if q.len() == 0 {
        Seq::empty()
    } else if q.len() == 1 {
        query_pair(q[0])
    } else {
        query_string(q.drop_last()) + "&"@ + query_pair(q.last())
    }
}

/// Whether some parameter has the given key.
pub open spec fn has_key(q: Seq<(Seq<char>, Seq<char>)>, key: Seq<char>) -> bool {
    exists|i: int| 0 <= i < q.len() && q[i].0 == key
}

/// The query with the `page` parameter rewritten to the given rendering:
/// every `page` entry is replaced in place, all other parameters are kept
/// unchanged, and a missing `page` parameter is appended at the end.
pub open spec fn rewrite_page(q: Seq<(Seq<char>, Seq<char>)>, page: Seq<char>) -> Seq<
    (Seq<char>, Seq<char>),
> {
    if has_key(q, "page"@) {
        q.map(
            |i: int, kv: (Seq<char>, Seq<char>)|
                if kv.0 == "page"@ {
                    (kv.0, page)
                } else {
                    kv
                },
        )
    } else {
        q.push(("page"@, page))
    }
}

/// The address of a page of the same listing: the path, then the query
/// with only the `page` parameter rewritten.
pub open spec fn page_url_spec(path: Seq<char>, q: Seq<(Seq<char>, Seq<char>)>, page: nat) -> Seq<
    char,
> {
    path + "?"@ + query_string(rewrite_page(q, dec_str(page)))
}

fn has_page_key(q: &Vec<(String, String)>) -> (r: bool)
    ensures
        r == has_key(q.deep_view(), "page"@),
{
    let mut i: usize = 0;
    while i < q.len()
        invariant
            i <= q.len(),
            q.deep_view().len() == q@.len(),
            forall|k: int| 0 <= k < i ==> q.deep_view()[k].0 != "page"@,
        decreases q.len() - i,
    {
        proof {
            assert(q.deep_view()[i as int] == q@[i as int].deep_view());
        }
        if str_eq(q[i].0.as_str(), "page") {
            proof {
                assert(q.deep_view()[i as int].0 == "page"@);
            }
            return true;
        }
        i = i + 1;
    }
    false
}

fn render_query(q: &Vec<(String, String)>) -> (r: String)
    ensures
        r@ == query_string(q.deep_view()),
{
    let mut r = String::new();
    let mut i: usize = 0;
    while i < q.len()
        invariant
            i <= q.len(),
            q.deep_view().len() == q@.len(),
            r@ == query_string(q.deep_view().take(i as int)),
        decreases q.len() - i,
    {
        proof {
            let qv = q.deep_view();
            assert(qv[i as int] == q@[i as int].deep_view());
            assert(qv.take(i + 1).drop_last() =~= qv.take(i as int));
            assert(qv.take(i + 1).last() == qv[i as int]);
        }
        if i > 0 {
            r.append("&");
        }
        r.append(q[i].0.as_str());
        r.append("=");
        r.append(q[i].1.as_str());
        proof {
            assert(r@ =~= query_string(q.deep_view().take(i + 1)));
        }
        i = i + 1;
    }
    proof {
        assert(q.deep_view().take(q@.len() as int) =~= q.deep_view());
    }
    r
}

/// The address of another page of the same listing.
pub fn page_url(uri: &RequestUri, page: u16) -> (r: String)
    ensures
        r@ == page_url_spec(uri.path@, uri.query.deep_view(), page as nat),
{
    let pstr = u16_to_dec(page);
    let ghost qv = uri.query.deep_view();
    let ghost target = rewrite_page(qv, dec_str(page as nat));
    let mut q: Vec<(String, String)> = Vec::new();
    if has_page_key(&uri.query) {
        let mut i: usize = 0;
        while i < uri.query.len()
            invariant
                i <= uri.query.len(),
                qv == uri.query.deep_view(),
                qv.len() == uri.query@.len(),
                has_key(qv, "page"@),
                target == rewrite_page(qv, dec_str(page as nat)),
                target.len() == qv.len(),
                pstr@ == dec_str(page as nat),
                q.deep_view() =~= target.take(i as int),
            decreases uri.query.len() - i,
        {
            proof {
                assert(qv[i as int] == uri.query@[i as int].deep_view());
            }
            let ghost before = q@;
            if str_eq(uri.query[i].0.as_str(), "page") {
                q.push((uri.query[i].0.clone(), pstr.clone()));
            } else {
                q.push((uri.query[i].0.clone(), uri.query[i].1.clone()));
            }
            proof {
                crate::seqs::lemma_deep_push(before, q@.last());
                assert(q.deep_view() =~= crate::seqs::deep(q@));
                assert(crate::seqs::deep(before) =~= target.take(i as int));
                assert(q@.last().deep_view() == target[i as int]);
                assert(target.take(i + 1) =~= target.take(i as int).push(target[i as int]));
                assert(q.deep_view() =~= target.take(i + 1));
            }
            i = i + 1;
        }
        proof {
            assert(target.take(qv.len() as int) =~= target);
        }
    } else {
        let mut i: usize = 0;
        while i < uri.query.len()
            invariant
                i <= uri.query.len(),
                qv == uri.query.deep_view(),
                qv.len() == uri.query@.len(),
                q.deep_view() =~= qv.take(i as int),
            decreases uri.query.len() - i,
        {
            proof {
                assert(qv[i as int] == uri.query@[i as int].deep_view());
            }
            let ghost before = q@;
            q.push((uri.query[i].0.clone(), uri.query[i].1.clone()));
            proof {
                crate::seqs::lemma_deep_push(before, q@.last());
                assert(q.deep_view() =~= crate::seqs::deep(q@));
                assert(crate::seqs::deep(before) =~= qv.take(i as int));
                assert(qv.take(i + 1) =~= qv.take(i as int).push(qv[i as int]));
                assert(q.deep_view() =~= qv.take(i + 1));
            }
            i = i + 1;
        }
        let ghost before = q@;
        q.push((String::from_str("page"), pstr));
        proof {
            assert(qv.take(qv.len() as int) =~= qv);
            crate::seqs::lemma_deep_push(before, q@.last());
            assert(q.deep_view() =~= crate::seqs::deep(q@));
            assert(crate::seqs::deep(before) =~= qv);
            assert(q.deep_view() =~= target);
        }
    }
    let qs = render_query(&q);
    let r = uri.path.clone().concat("?").concat(qs.as_str());
    proof {
        assert(r@ =~= page_url_spec(uri.path@, uri.query.deep_view(), page as nat));
    }
    r
}

/// The previous/next links of a listing page: no link backward from the
/// first page, no link forward from the last; otherwise the same address
/// with only the `page` parameter rewritten.
pub fn gen_pagination_links(current_page: u16, total_pages_count: u16, uri: &RequestUri) -> (r:
    PaginationLinks)
    requires
        current_page >= 1,
        total_pages_count >= 1,
    ensures
        current_page <= 1 ==> r.prev is None,
        current_page > 1 ==> (r.prev matches Some(u) && u@ == page_url_spec(
            uri.path@,
            uri.query.deep_view(),
            (current_page - 1) as nat,
        )),
        current_page >= total_pages_count ==> r.next is None,
        current_page < total_pages_count ==> (r.next matches Some(u) && u@ == page_url_spec(
            uri.path@,
            uri.query.deep_view(),
            (current_page + 1) as nat,
        )),
{
    let prev = if current_page > 1 {
        Some(page_url(uri, current_page - 1))
    } else {
        None
    };
    let next = if current_page < total_pages_count {
        Some(page_url(uri, current_page + 1))
    } else {
        None
    };
    PaginationLinks { prev, next }
}

} // verus!
