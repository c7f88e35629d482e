//! The show requests: what the explore page asks for, and a show's page.

use vstd::prelude::*;
use crate::api::{names_a_category, query_has, query_sort, sort_code, ticked};
use crate::query::{lemma_query_finite, Query};
use crate::api::ExploreView;
use crate::show::db::ExplSqlIn;
use crate::show::model::Page;
use crate::text::{opt_text, text_is};

verus! {

/// The show a page asks about.
pub struct ShowParams {
    pub sid: i32,
}

/// Where a show's media is found, as sent to the visitor: empty texts and a
/// zero end where the page has none.
pub struct PageJ {
    pub mediahost: String,
    pub mediaid: String,
    pub reference: String,
    pub ends: i32,
}

/// A text, or the empty text.
pub open spec fn text_or_empty(t: Option<Seq<char>>) -> Seq<char> {
    match t {
        Some(s) => s,
        None => Seq::empty(),
    }
}

/// The page as it is sent.
pub fn page_json(page: Page) -> (r: PageJ)
    ensures
        r.mediahost@ == text_or_empty(opt_text(page.mediahost)),
        r.mediaid@ == text_or_empty(opt_text(page.mediaid)),
        r.reference@ == text_or_empty(opt_text(page.reference)),
        r.ends == match page.ends {
            Some(e) => e,
            None => 0i32,
        },
{
    PageJ {
        mediahost: match page.mediahost {
            Some(h) => h,
            None => String::new(),
        },
        mediaid: match page.mediaid {
            Some(i) => i,
            None => String::new(),
        },
        reference: match page.reference {
            Some(f) => f,
            None => String::new(),
        },
        ends: match page.ends {
            Some(e) => e,
            None => 0,
        },
    }
}

/// The medium code a medium name stands for.
pub open spec fn medium_code(name: Seq<char>) -> Option<u8> {
    if name == "video"@ {
        Some(0u8)
    } else if name == "photos"@ {
        Some(1u8)
    } else if name == "graphics"@ {
        Some(2u8)
    } else if name == "animation"@ {
        Some(3u8)
    } else {
        None
    }
}

/// The category codes a query ticks, in order: `cat1` to `cat4` are codes
/// zero to three.
pub open spec fn ticked_codes(q: Map<Seq<char>, Seq<char>>) -> Seq<u8> {
    (if q.contains_key("cat1"@) { seq![0u8] } else { Seq::empty() }) + (if q.contains_key("cat2"@) {
        seq![1u8]
    } else {
        Seq::empty()
    }) + (if q.contains_key("cat3"@) { seq![2u8] } else { Seq::empty() }) + (if q.contains_key(
        "cat4"@,
    ) {
        seq![3u8]
    } else {
        Seq::empty()
    })
}

/// The medium code for a name, computed.
fn medium_from(name: &String) -> (r: Option<u8>)
    ensures
        r == medium_code(name@),
{
    if text_is(name, "video") {
        Some(0)
    } else if text_is(name, "photos") {
        Some(1)
    } else if text_is(name, "graphics") {
        Some(2)
    } else if text_is(name, "animation") {
        Some(3)
    } else {
        None
    }
}

/// What the explore page asks for, from its query: nothing with no
/// parameters; otherwise the ticked categories, the sort code and the medium.
pub fn explore_request(ipid: i32, query: &Query) -> (r: ExplSqlIn)
    ensures
        r.ipid == ipid,
        query@.len() == 0 ==> r.categories@.len() == 0 && r.sort == 0 && r.media is None,
        r.categories@ == ticked_codes(query@),
        r.sort == sort_code(query@),
        r.media == (if query@.contains_key("media"@) {
            medium_code(query@["media"@])
        } else {
            None
        }),
{
    let mut categories: Vec<u8> = Vec::new();
    let mut sort: u8 = 0;
    let mut media: Option<u8> = None;
    proof {
        lemma_query_finite(*query);
    }
    if query.len() > 0 {
        if query_has(query, "cat1") {
            categories.push(0);
        }
        if query_has(query, "cat2") {
            categories.push(1);
        }
        if query_has(query, "cat3") {
            categories.push(2);
        }
        if query_has(query, "cat4") {
            categories.push(3);
        }
        assert(categories@ =~= ticked_codes(query@));
        sort = query_sort(query);
        let key = "media".to_owned();
        media = match query.get(&key) {
            Some(m) => medium_from(m),
            None => None,
        };
    }
    ExplSqlIn { ipid, categories, sort, media }
}


/// Agreement law: the explore page asks for the shows of the categories it
/// ticks. When its query names a category, a category is ticked exactly
/// when its code is asked for; when it names none, every category is ticked
/// and no code is asked for, so no category filter applies beyond leaving
/// out illegal shows.
pub proof fn lemma_ticks_agree_with_request(q: Map<Seq<char>, Seq<char>>)
    ensures
        names_a_category(q) ==> {
            &&& ticked(q, "cat1"@) == ticked_codes(q).contains(0u8)
            &&& ticked(q, "cat2"@) == ticked_codes(q).contains(1u8)
            &&& ticked(q, "cat3"@) == ticked_codes(q).contains(2u8)
            &&& ticked(q, "cat4"@) == ticked_codes(q).contains(3u8)
        },
        !names_a_category(q) ==> ticked_codes(q).len() == 0 && ticked(q, "cat1"@) && ticked(q, "cat2"@)
            && ticked(q, "cat3"@) && ticked(q, "cat4"@),
{
    let a: Seq<u8> = if q.contains_key("cat1"@) { seq![0u8] } else { Seq::empty() };
    let b: Seq<u8> = if q.contains_key("cat2"@) { seq![1u8] } else { Seq::empty() };
    let c: Seq<u8> = if q.contains_key("cat3"@) { seq![2u8] } else { Seq::empty() };
    let d: Seq<u8> = if q.contains_key("cat4"@) { seq![3u8] } else { Seq::empty() };
    let t = ticked_codes(q);
    assert(t == a + b + c + d);
    assert forall|x: u8| t.contains(x) <==> (a.contains(x) || b.contains(x) || c.contains(x) || d.contains(x)) by {
        if t.contains(x) {
            let i = choose|i: int| 0 <= i < t.len() && t[i] == x;
            if i < a.len() {
                assert((a + b + c + d)[i] == a[i]);
            } else if i < a.len() + b.len() {
                assert((a + b + c + d)[i] == b[i - a.len()]);
            } else if i < a.len() + b.len() + c.len() {
                assert((a + b + c + d)[i] == c[i - a.len() - b.len()]);
            } else {
                assert((a + b + c + d)[i] == d[i - a.len() - b.len() - c.len()]);
            }
        }
        if a.contains(x) {
            assert(t[0] == a[0]);
        }
        if b.contains(x) {
            assert(t[a.len() as int] == b[0]);
        }
        if c.contains(x) {
            assert(t[(a.len() + b.len()) as int] == c[0]);
        }
        if d.contains(x) {
            assert(t[(a.len() + b.len() + c.len()) as int] == d[0]);
        }
    }
    assert(a.contains(0u8) == q.contains_key("cat1"@)) by {
        if q.contains_key("cat1"@) {
            assert(a[0] == 0u8);
        }
    }
    assert(b.contains(1u8) == q.contains_key("cat2"@)) by {
        if q.contains_key("cat2"@) {
            assert(b[0] == 1u8);
        }
    }
    assert(c.contains(2u8) == q.contains_key("cat3"@)) by {
        if q.contains_key("cat3"@) {
            assert(c[0] == 2u8);
        }
    }
    assert(d.contains(3u8) == q.contains_key("cat4"@)) by {
        if q.contains_key("cat4"@) {
            assert(d[0] == 3u8);
        }
    }
}

/// Key law of the explore page, said of the query's keys: a category is
/// ticked when its key `cat1` to `cat4` is there; when any of the four keys is
/// there, exactly those categories are ticked, and when none is, all four
/// are. The codes asked for are those of the keys that are there (`cat1`
/// gives `0` up to `cat4` giving `3`), each once and in increasing order.
pub proof fn lemma_explore_follows_keys(q: Map<Seq<char>, Seq<char>>, v: ExploreView, r: ExplSqlIn)
    requires
        v.cat1 == ticked(q, "cat1"@),
        v.cat2 == ticked(q, "cat2"@),
        v.cat3 == ticked(q, "cat3"@),
        v.cat4 == ticked(q, "cat4"@),
        r.categories@ == ticked_codes(q),
    ensures
        q.contains_key("cat1"@) ==> v.cat1,
        q.contains_key("cat2"@) ==> v.cat2,
        q.contains_key("cat3"@) ==> v.cat3,
        q.contains_key("cat4"@) ==> v.cat4,
        (q.contains_key("cat1"@) || q.contains_key("cat2"@) || q.contains_key("cat3"@) || q.contains_key("cat4"@))
            ==> {
            &&& v.cat1 == q.contains_key("cat1"@)
            &&& v.cat2 == q.contains_key("cat2"@)
            &&& v.cat3 == q.contains_key("cat3"@)
            &&& v.cat4 == q.contains_key("cat4"@)
        },
        !(q.contains_key("cat1"@) || q.contains_key("cat2"@) || q.contains_key("cat3"@) || q.contains_key("cat4"@))
            ==> v.cat1 && v.cat2 && v.cat3 && v.cat4,
        forall|x: u8|
            #![trigger r.categories@.contains(x)]
            r.categories@.contains(x) <==> {
                ||| x == 0 && q.contains_key("cat1"@)
                ||| x == 1 && q.contains_key("cat2"@)
                ||| x == 2 && q.contains_key("cat3"@)
                ||| x == 3 && q.contains_key("cat4"@)
            },
        forall|i: int, j: int| 0 <= i < j < r.categories@.len() ==> r.categories@[i] < r.categories@[j],
{
    let a: Seq<u8> = if q.contains_key("cat1"@) { seq![0u8] } else { Seq::empty() };
    let b: Seq<u8> = if q.contains_key("cat2"@) { seq![1u8] } else { Seq::empty() };
    let c: Seq<u8> = if q.contains_key("cat3"@) { seq![2u8] } else { Seq::empty() };
    let d: Seq<u8> = if q.contains_key("cat4"@) { seq![3u8] } else { Seq::empty() };
    let t = ticked_codes(q);
    assert(t == a + b + c + d);
    lemma_add_code(Seq::empty(), a, 0u8);
    assert(Seq::<u8>::empty() + a =~= a);
    lemma_add_code(a, b, 1u8);
    lemma_add_code(a + b, c, 2u8);
    lemma_add_code(a + b + c, d, 3u8);
    assert forall|x: u8| t.contains(x) <==> {
        ||| x == 0 && q.contains_key("cat1"@)
        ||| x == 1 && q.contains_key("cat2"@)
        ||| x == 2 && q.contains_key("cat3"@)
        ||| x == 3 && q.contains_key("cat4"@)
    } by {
        if t.contains(x) {
            let i = choose|i: int| 0 <= i < t.len() && t[i] == x;
            if i < a.len() {
                assert((a + b + c + d)[i] == a[i]);
            } else if i < a.len() + b.len() {
                assert((a + b + c + d)[i] == b[i - a.len()]);
            } else if i < a.len() + b.len() + c.len() {
                assert((a + b + c + d)[i] == c[i - a.len() - b.len()]);
            } else {
                assert((a + b + c + d)[i] == d[i - a.len() - b.len() - c.len()]);
            }
        }
        if x == 0 && q.contains_key("cat1"@) {
            assert(t[0] == a[0]);
        }
        if x == 1 && q.contains_key("cat2"@) {
            assert(t[a.len() as int] == b[0]);
        }
        if x == 2 && q.contains_key("cat3"@) {
            assert(t[(a.len() + b.len()) as int] == c[0]);
        }
        if x == 3 && q.contains_key("cat4"@) {
            assert(t[(a.len() + b.len() + c.len()) as int] == d[0]);
        }
    }
}

/// Adding at most the code `x` to codes in increasing order and below `x`
/// keeps them in increasing order, and none above `x`.
proof fn lemma_add_code(s: Seq<u8>, e: Seq<u8>, x: u8)
    requires
        forall|i: int, j: int| 0 <= i < j < s.len() ==> s[i] < s[j],
        forall|i: int| 0 <= i < s.len() ==> s[i] < x,
        e == seq![x] || e == Seq::<u8>::empty(),
    ensures
        forall|i: int, j: int| 0 <= i < j < (s + e).len() ==> (s + e)[i] < (s + e)[j],
        forall|i: int| 0 <= i < (s + e).len() ==> (s + e)[i] <= x,
{
    assert forall|i: int, j: int| 0 <= i < j < (s + e).len() implies (s + e)[i] < (s + e)[j] by {
        if j < s.len() {
            assert((s + e)[i] == s[i] && (s + e)[j] == s[j]);
        } else {
            assert((s + e)[i] == s[i] && (s + e)[j] == e[0]);
        }
    }
    assert forall|i: int| 0 <= i < (s + e).len() implies (s + e)[i] <= x by {
        if i < s.len() {
            assert((s + e)[i] == s[i]);
        } else {
            assert((s + e)[i] == e[0]);
        }
    }
}

/// Medium law of the explore request: the medium asked for is code `0` for
/// a `media` value `video`, `1` for `photos`, `2` for `graphics`, `3` for
/// `animation`, and no medium for any other value or none at all.
pub proof fn lemma_media_names(q: Map<Seq<char>, Seq<char>>, r: ExplSqlIn)
    requires
        r.media == (if q.contains_key("media"@) {
            medium_code(q["media"@])
        } else {
            None
        }),
    ensures
        r.media == Some(0u8) <==> q.contains_key("media"@) && q["media"@] == "video"@,
        r.media == Some(1u8) <==> q.contains_key("media"@) && q["media"@] == "photos"@,
        r.media == Some(2u8) <==> q.contains_key("media"@) && q["media"@] == "graphics"@,
        r.media == Some(3u8) <==> q.contains_key("media"@) && q["media"@] == "animation"@,
        r.media is None <==> !q.contains_key("media"@) || (q["media"@] != "video"@ && q["media"@] != "photos"@
            && q["media"@] != "graphics"@ && q["media"@] != "animation"@),
{
    reveal_strlit("video");
    reveal_strlit("photos");
    reveal_strlit("graphics");
    reveal_strlit("animation");
    assert("video"@.len() == 5 && "photos"@.len() == 6 && "graphics"@.len() == 8 && "animation"@.len() == 9);
}

} // verus!
