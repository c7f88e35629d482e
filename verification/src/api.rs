//! The page requests: who the visitor is, and what the explore page shows.

use vstd::prelude::*;
use crate::db::IpIn;
use crate::query::{lemma_query_finite, Query};
use crate::text::{
    before_colon, decimal_text, i32_or_zero, lemma_i32_text_round_trip, parse_i32_or_zero,
    parsed_integer, parse_u8, text_before_colon,
};

verus! {

/// The address a connection reports, without its port; `0.0.0.0` when it
/// reports none.
pub fn client_ip(remote: Option<&str>) -> (r: String)
    ensures
        match remote {
            Some(s) => r@ == before_colon(s@),
            None => r@ == "0.0.0.0"@,
        },
{
    match remote {
        Some(s) => text_before_colon(s),
        None => "0.0.0.0".to_owned(),
    }
}

/// The visit a page makes: the id the visitor is known by when it has one,
/// otherwise the address of its connection.
pub fn visit(identity: Option<String>, remote: Option<&str>) -> (r: IpIn)
    ensures
        match identity {
            Some(id) => r.ident == Some(id) && r.ipaddr is None,
            None => r.ident is None && (r.ipaddr matches Some(a) && match remote {
                Some(s) => a@ == before_colon(s@),
                None => a@ == "0.0.0.0"@,
            }),
        },
{
    match identity {
        Some(id) => IpIn { ipaddr: None, ident: Some(id) },
        None => IpIn { ipaddr: Some(client_ip(remote)), ident: None },
    }
}

/// The address id a visitor is known by: the number its identity reads as,
/// zero when it has none or it reads as no number.
pub open spec fn visitor_number(identity: Option<Seq<char>>) -> int {
    match identity {
        Some(s) => i32_or_zero(s),
        None => 0,
    }
}

/// The address id a visitor is known by.
pub fn visitor_id(identity: Option<&str>) -> (r: i32)
    ensures
        r == visitor_number(
            match identity {
                Some(s) => Some(s@),
                None => None,
            },
        ),
{
    match identity {
        Some(s) => parse_i32_or_zero(s),
        None => 0,
    }
}

/// Identity law: a visitor remembered by the text of its address id is known
/// again by that same id.
pub proof fn lemma_remembered_visitor_known(id: i32)
    ensures
        visitor_number(Some(decimal_text(id as int))) == id,
{
    lemma_i32_text_round_trip(id);
}

/// The sort code a query asks for: its `sort` parameter read as a `u8`, zero
/// when it is missing or reads as none.
pub open spec fn sort_code(q: Map<Seq<char>, Seq<char>>) -> int {
    if q.contains_key("sort"@) {
        match parsed_integer(q["sort"@], 0, 255) {
            Some(v) => v,
            None => 0,
        }
    } else {
        0
    }
}

/// The sort code of a query.
pub fn query_sort(query: &Query) -> (r: u8)
    ensures
        r == sort_code(query@),
{
    let key = "sort".to_owned();
    match query.get(&key) {
        Some(s) => match parse_u8(s.as_str()) {
            Some(v) => v,
            None => 0,
        },
        None => 0,
    }
}

/// Whether a query has the parameter `name`.
pub fn query_has(query: &Query, name: &str) -> (r: bool)
    ensures
        r == query@.contains_key(name@),
{
    let key = name.to_owned();
    query.get(&key).is_some()
}

/// Whether the query names any of the four categories.
pub open spec fn names_a_category(q: Map<Seq<char>, Seq<char>>) -> bool {
    q.contains_key("cat1"@) || q.contains_key("cat2"@) || q.contains_key("cat3"@) || q.contains_key(
        "cat4"@,
    )
}

/// Whether the explore page ticks the category `name` for a query:
/// when the query names it, or names no category at all.
pub open spec fn ticked(q: Map<Seq<char>, Seq<char>>, name: Seq<char>) -> bool {
    q.contains_key(name) || !names_a_category(q)
}

/// What the explore page shows ticked: its categories and its sort.
pub struct ExploreView {
    pub cat1: bool,
    pub cat2: bool,
    pub cat3: bool,
    pub cat4: bool,
    pub sort: u8,
}

/// The explore page's ticks for a query: with no parameters, every category
/// and sort zero; otherwise the categories the query names, or all of them
/// when it names none, and its sort code.
pub fn explore_view(query: &Query) -> (r: ExploreView)
    ensures
        query@.len() == 0 ==> r.cat1 && r.cat2 && r.cat3 && r.cat4 && r.sort == 0,
        r.cat1 == ticked(query@, "cat1"@),
        r.cat2 == ticked(query@, "cat2"@),
        r.cat3 == ticked(query@, "cat3"@),
        r.cat4 == ticked(query@, "cat4"@),
        r.sort == sort_code(query@),
        r.cat1 || r.cat2 || r.cat3 || r.cat4,
{
    if query.len() == 0 {
        proof {
            lemma_query_finite(*query);
        }
        return ExploreView { cat1: true, cat2: true, cat3: true, cat4: true, sort: 0 };
    }
    let c1 = query_has(query, "cat1");
    let c2 = query_has(query, "cat2");
    let c3 = query_has(query, "cat3");
    let c4 = query_has(query, "cat4");
    let none = !c1 && !c2 && !c3 && !c4;
    ExploreView {
        cat1: c1 || none,
        cat2: c2 || none,
        cat3: c3 || none,
        cat4: c4 || none,
        sort: query_sort(query),
    }
}

} // verus!
