//! Show rows and the queries that select them.

use vstd::prelude::*;

verus! {

/// A calendar day.
pub struct Day {
    pub year: i32,
    pub month: u32,
    pub day: u32,
}

/// A show of the catalogue.
pub struct Show {
    pub id: i32,
    pub imgnum: i32,
    pub title: String,
    pub year: i32,
    pub intro: String,
    pub limitdate: Option<Day>,
    pub popular: i32,
    pub mature: bool,
    pub movin: bool,
    pub still: bool,
    pub graph: bool,
    pub anime: bool,
    pub illeg: bool,
    pub cat1: bool,
    pub cat2: bool,
    pub cat3: bool,
    pub cat4: bool,
}

/// A maker credited on a show.
pub struct Maker {
    pub id: i32,
    pub name: String,
    pub showid: i32,
}

/// What the explore page asks for: category codes `0..4`, a sort code and a
/// medium code.
pub struct AllShows {
    pub categories: Vec<u8>,
    pub sort: u8,
    pub media: Option<u8>,
}

/// Where a show's media is found.
pub struct Page {
    pub id: i32,
    pub showid: i32,
    pub mediahost: Option<String>,
    pub mediaid: Option<String>,
    pub reference: Option<String>,
    pub ends: Option<i32>,
}

/// A category column of the shows table.
#[derive(Clone, Copy)]
pub enum CategoryColumn {
    Cat1,
    Cat2,
    Cat3,
    Cat4,
}

/// A medium column of the shows table.
#[derive(Clone, Copy)]
pub enum MediaColumn {
    Movin,
    Still,
    Graph,
    Anime,
}

/// Which categories a query keeps.
pub enum CategoryFilter {
    /// Shows that are not marked illegal.
    NotIllegal,
    /// Shows in at least one of these categories.
    AnyOf(Vec<CategoryColumn>),
    /// Every show.
    Every,
}

/// The order in which a query returns shows.
#[derive(Clone, Copy)]
pub enum ShowOrder {
    /// Newest id first.
    IdDesc,
    /// Most popular first, then newest id.
    PopularDescIdDesc,
    /// Latest year first, then most popular.
    YearDescPopularDesc,
    /// Earliest year first, then most popular.
    YearAscPopularDesc,
    /// As the database finds them.
    Unordered,
}

/// A query on the shows table.
pub struct ShowQuery {
    pub categories: CategoryFilter,
    pub media: Option<MediaColumn>,
    /// Keep only shows whose limit date is unset or not yet past.
    pub current_only: bool,
    pub order: ShowOrder,
    pub limit: Option<i64>,
}

/// The category column for a category code.
pub open spec fn category_of(code: u8) -> Option<CategoryColumn> {
    if code == 0 {
        Some(CategoryColumn::Cat1)
    } else if code == 1 {
        Some(CategoryColumn::Cat2)
    } else if code == 2 {
        Some(CategoryColumn::Cat3)
    } else if code == 3 {
        Some(CategoryColumn::Cat4)
    } else {
        None
    }
}

/// The medium column for a medium code.
pub open spec fn medium_of(code: u8) -> Option<MediaColumn> {
    if code == 0 {
        Some(MediaColumn::Movin)
    } else if code == 1 {
        Some(MediaColumn::Still)
    } else if code == 2 {
        Some(MediaColumn::Graph)
    } else if code == 3 {
        Some(MediaColumn::Anime)
    } else {
        None
    }
}

/// The order for a sort code.
pub open spec fn order_of(code: u8) -> ShowOrder {
    if code == 0 {
        ShowOrder::IdDesc
    } else if code == 1 {
        ShowOrder::PopularDescIdDesc
    } else if code == 2 {
        ShowOrder::YearDescPopularDesc
    } else if code == 3 {
        ShowOrder::YearAscPopularDesc
    } else {
        ShowOrder::Unordered
    }
}

/// The columns of the known codes among `codes`, in their order.
pub open spec fn columns_of(codes: Seq<u8>) -> Seq<CategoryColumn>
    decreases codes.len(),
{
    if codes.len() == 0 {
        Seq::empty()
    } else {
        match category_of(codes.last()) {
            Some(c) => columns_of(codes.drop_last()).push(c),
            None => columns_of(codes.drop_last()),
        }
    }
}

/// Whether the show is in the category.
pub open spec fn in_category(s: Show, c: CategoryColumn) -> bool {
    match c {
        CategoryColumn::Cat1 => s.cat1,
        CategoryColumn::Cat2 => s.cat2,
        CategoryColumn::Cat3 => s.cat3,
        CategoryColumn::Cat4 => s.cat4,
    }
}

/// Whether the category code is known and the show is in that category.
pub open spec fn in_coded_category(s: Show, code: u8) -> bool {
    match category_of(code) {
        Some(c) => in_category(s, c),
        None => false,
    }
}

/// Whether the show has the medium.
pub open spec fn in_medium(s: Show, m: MediaColumn) -> bool {
    match m {
        MediaColumn::Movin => s.movin,
        MediaColumn::Still => s.still,
        MediaColumn::Graph => s.graph,
        MediaColumn::Anime => s.anime,
    }
}

/// Whether day `a` is not after day `b`.
pub open spec fn day_not_after(a: Day, b: Day) -> bool {
    ||| a.year < b.year
    ||| a.year == b.year && a.month < b.month
    ||| a.year == b.year && a.month == b.month && a.day <= b.day
}

/// A show is current on `today` when its limit date is unset or not past.
pub open spec fn current_on(s: Show, today: Day) -> bool {
    match s.limitdate {
        Some(d) => day_not_after(today, d),
        None => true,
    }
}

/// Whether a query selects the show on `today`.
pub open spec fn admits(q: ShowQuery, s: Show, today: Day) -> bool {
    &&& match q.categories {
        CategoryFilter::NotIllegal => !s.illeg,
        CategoryFilter::AnyOf(cs) => exists|i: int| 0 <= i < cs@.len() && in_category(s, #[trigger] cs@[i]),
        CategoryFilter::Every => true,
    }
    &&& match q.media {
        Some(m) => in_medium(s, m),
        None => true,
    }
    &&& q.current_only ==> current_on(s, today)
}

/// The shows the explore page wants on `today`, said directly from its codes:
/// current shows; not illegal ones when no category is ticked; when one to
/// three codes are given and some is known, shows in one of the named
/// categories; and shows of the named medium, when it is known.
pub open spec fn wanted(ask: AllShows, s: Show, today: Day) -> bool {
    let codes = ask.categories@;
    &&& current_on(s, today)
    &&& codes.len() == 0 ==> !s.illeg
    &&& (1 <= codes.len() <= 3 && exists|i: int| 0 <= i < codes.len() && (#[trigger] category_of(
        codes[i],
    )) is Some) ==> exists|i: int| 0 <= i < codes.len() && #[trigger] in_coded_category(s, codes[i])
    &&& ask.media matches Some(m) ==> (medium_of(m) matches Some(c) ==> in_medium(s, c))
}

/// The category column for a code, computed.
fn category_column(code: u8) -> (r: Option<CategoryColumn>)
    ensures
        r == category_of(code),
{
    match code {
        0 => Some(CategoryColumn::Cat1),
        1 => Some(CategoryColumn::Cat2),
        2 => Some(CategoryColumn::Cat3),
        3 => Some(CategoryColumn::Cat4),
        _ => None,
    }
}

impl Show {
    /// The query of the taste page: the six most popular current shows, newest
    /// first among equals.
    pub fn tasteshows() -> (q: ShowQuery)
        ensures
            q.categories is Every,
            q.media is None,
            q.current_only,
            q.order is PopularDescIdDesc,
            q.limit == Some(6i64),
    {
        ShowQuery {
            categories: CategoryFilter::Every,
            media: None,
            current_only: true,
            order: ShowOrder::PopularDescIdDesc,
            limit: Some(6),
        }
    }

    /// The query of the explore page for what it asks.
    pub fn retrieveshows(ask: &AllShows) -> (q: ShowQuery)
        ensures
            ask.categories@.len() == 0 ==> q.categories is NotIllegal,
            1 <= ask.categories@.len() <= 3 && columns_of(ask.categories@).len() > 0 ==> (
            q.categories matches CategoryFilter::AnyOf(cs) && cs@ == columns_of(ask.categories@)),
            1 <= ask.categories@.len() <= 3 && columns_of(ask.categories@).len() == 0 ==> q.categories is Every,
            ask.categories@.len() >= 4 ==> q.categories is Every,
            q.media == (match ask.media {
                Some(m) => medium_of(m),
                None => None,
            }),
            q.current_only,
            q.order == order_of(ask.sort),
            q.limit is None,
            retrieve_plan_spec(*ask, q),
    {
        let n = ask.categories.len();
        let categories = if n == 0 {
            CategoryFilter::NotIllegal
        } else if n < 4 {
            let mut cs: Vec<CategoryColumn> = Vec::new();
            let mut i: usize = 0;
            while i < n
                invariant
                    0 <= i <= n,
                    n == ask.categories@.len(),
                    cs@ == columns_of(ask.categories@.take(i as int)),
                decreases n - i,
            {
                let c = category_column(ask.categories[i]);
                proof {
                    let t = ask.categories@.take(i + 1);
                    assert(t.drop_last() =~= ask.categories@.take(i as int));
                    assert(t.last() == ask.categories@[i as int]);
                }
                match c {
                    Some(col) => cs.push(col),
                    None => {},
                }
                i = i + 1;
            }
            assert(ask.categories@.take(n as int) =~= ask.categories@);
            if cs.len() > 0 {
                CategoryFilter::AnyOf(cs)
            } else {
                CategoryFilter::Every
            }
        } else {
            CategoryFilter::Every
        };
        let media = match ask.media {
            Some(0) => Some(MediaColumn::Movin),
            Some(1) => Some(MediaColumn::Still),
            Some(2) => Some(MediaColumn::Graph),
            Some(3) => Some(MediaColumn::Anime),
            _ => None,
        };
        let order = match ask.sort {
            0 => ShowOrder::IdDesc,
            1 => ShowOrder::PopularDescIdDesc,
            2 => ShowOrder::YearDescPopularDesc,
            3 => ShowOrder::YearAscPopularDesc,
            _ => ShowOrder::Unordered,
        };
        ShowQuery { categories, media, current_only: true, order, limit: None }
    }
}

/// The known codes' columns are exactly the columns of codes in the list.
proof fn lemma_columns_of(codes: Seq<u8>)
    ensures
        forall|j: int|
            0 <= j < columns_of(codes).len() ==> exists|i: int|
                0 <= i < codes.len() && category_of(codes[i]) == Some(
                    #[trigger] columns_of(codes)[j],
                ),
        forall|i: int|
            0 <= i < codes.len() && (#[trigger] category_of(codes[i])) is Some ==> exists|j: int|
                0 <= j < columns_of(codes).len() && category_of(codes[i]) == Some(
                    columns_of(codes)[j],
                ),
    decreases codes.len(),
{
    if codes.len() > 0 {
        let rest = codes.drop_last();
        lemma_columns_of(rest);
        let cs = columns_of(codes);
        let rs = columns_of(rest);
        assert forall|j: int| 0 <= j < cs.len() implies exists|i: int|
            0 <= i < codes.len() && category_of(codes[i]) == Some(#[trigger] cs[j]) by {
            if j < rs.len() {
                assert(cs[j] == rs[j]);
                let i = choose|i: int| 0 <= i < rest.len() && category_of(rest[i]) == Some(rs[j]);
                assert(codes[i] == rest[i]);
            } else {
                assert(codes[codes.len() - 1] == codes.last());
            }
        }
        assert forall|i: int| 0 <= i < codes.len() && (#[trigger] category_of(codes[i])) is Some implies exists|j: int|
            0 <= j < cs.len() && category_of(codes[i]) == Some(cs[j]) by {
            if i < rest.len() {
                assert(codes[i] == rest[i]);
                let j = choose|j: int| 0 <= j < rs.len() && category_of(rest[i]) == Some(rs[j]);
                assert(cs[j] == rs[j]);
            } else {
                assert(codes[i] == codes.last());
                assert(cs[rs.len() as int] == category_of(codes.last())->0);
            }
        }
    }
}

/// Selection law of the explore page: its query selects a show exactly when
/// the page wants it.
pub proof fn lemma_retrieve_plan_selects_wanted(ask: AllShows, q: ShowQuery, s: Show, today: Day)
    requires
        retrieve_plan_spec(ask, q),
    ensures
        admits(q, s, today) <==> wanted(ask, s, today),
{
    let codes = ask.categories@;
    lemma_columns_of(codes);
    if 1 <= codes.len() <= 3 {
        let cs = columns_of(codes);
        if cs.len() > 0 {
            assert(exists|i: int| 0 <= i < codes.len() && (#[trigger] category_of(codes[i])) is Some) by {
                let i = choose|i: int| 0 <= i < codes.len() && category_of(codes[i]) == Some(cs[0]);
            }
            if exists|j: int| 0 <= j < cs.len() && in_category(s, #[trigger] cs[j]) {
                let j = choose|j: int| 0 <= j < cs.len() && in_category(s, #[trigger] cs[j]);
                let i = choose|i: int| 0 <= i < codes.len() && category_of(codes[i]) == Some(cs[j]);
                assert(in_coded_category(s, codes[i]));
            }
            if exists|i: int| 0 <= i < codes.len() && #[trigger] in_coded_category(s, codes[i]) {
                let i = choose|i: int| 0 <= i < codes.len() && #[trigger] in_coded_category(s, codes[i]);
                assert(category_of(codes[i]) is Some);
                let j = choose|j: int| 0 <= j < cs.len() && category_of(codes[i]) == Some(cs[j]);
                assert(in_category(s, cs[j]));
            }
        } else {
            assert forall|i: int| 0 <= i < codes.len() implies (#[trigger] category_of(codes[i])) is None by {
                if category_of(codes[i]) is Some {
                    let j = choose|j: int| 0 <= j < cs.len() && category_of(codes[i]) == Some(cs[j]);
                }
            }
        }
    }
}

/// Column law of the explore page, said of the shows' own columns: its query
/// keeps a show exactly when the show is current; is not illegal when no
/// category code is given; when one to three codes are given and one of them
/// is below four, is in a category they name (code `0` the first category up
/// to code `3` the fourth); and has the medium that the medium code names
/// (`0` video, `1` photos, `2` graphics, `3` animation).
pub proof fn lemma_retrieve_plan_columns(ask: AllShows, q: ShowQuery, s: Show, today: Day)
    requires
        retrieve_plan_spec(ask, q),
    ensures
        admits(q, s, today) <==> {
            let codes = ask.categories@;
            &&& current_on(s, today)
            &&& codes.len() == 0 ==> !s.illeg
            &&& (1 <= codes.len() <= 3 && exists|i: int| 0 <= i < codes.len() && #[trigger] codes[i] < 4) ==> {
                ||| codes.contains(0u8) && s.cat1
                ||| codes.contains(1u8) && s.cat2
                ||| codes.contains(2u8) && s.cat3
                ||| codes.contains(3u8) && s.cat4
            }
            &&& ask.media == Some(0u8) ==> s.movin
            &&& ask.media == Some(1u8) ==> s.still
            &&& ask.media == Some(2u8) ==> s.graph
            &&& ask.media == Some(3u8) ==> s.anime
        },
{
    lemma_retrieve_plan_selects_wanted(ask, q, s, today);
    let codes = ask.categories@;
    assert((exists|i: int| 0 <= i < codes.len() && (#[trigger] category_of(codes[i])) is Some) <==> (exists|
        i: int,
    | 0 <= i < codes.len() && #[trigger] codes[i] < 4)) by {
        if exists|i: int| 0 <= i < codes.len() && (#[trigger] category_of(codes[i])) is Some {
            let i = choose|i: int| 0 <= i < codes.len() && (#[trigger] category_of(codes[i])) is Some;
            assert(codes[i] < 4);
        }
        if exists|i: int| 0 <= i < codes.len() && #[trigger] codes[i] < 4 {
            let i = choose|i: int| 0 <= i < codes.len() && #[trigger] codes[i] < 4;
            assert(category_of(codes[i]) is Some);
        }
    }
    assert((exists|i: int| 0 <= i < codes.len() && #[trigger] in_coded_category(s, codes[i])) <==> {
        ||| codes.contains(0u8) && s.cat1
        ||| codes.contains(1u8) && s.cat2
        ||| codes.contains(2u8) && s.cat3
        ||| codes.contains(3u8) && s.cat4
    }) by {
        if exists|i: int| 0 <= i < codes.len() && #[trigger] in_coded_category(s, codes[i]) {
            let i = choose|i: int| 0 <= i < codes.len() && #[trigger] in_coded_category(s, codes[i]);
            assert(codes.contains(codes[i]));
        }
        if codes.contains(0u8) && s.cat1 {
            let i = choose|i: int| 0 <= i < codes.len() && codes[i] == 0u8;
            assert(in_coded_category(s, codes[i]));
        }
        if codes.contains(1u8) && s.cat2 {
            let i = choose|i: int| 0 <= i < codes.len() && codes[i] == 1u8;
            assert(in_coded_category(s, codes[i]));
        }
        if codes.contains(2u8) && s.cat3 {
            let i = choose|i: int| 0 <= i < codes.len() && codes[i] == 2u8;
            assert(in_coded_category(s, codes[i]));
        }
        if codes.contains(3u8) && s.cat4 {
            let i = choose|i: int| 0 <= i < codes.len() && codes[i] == 3u8;
            assert(in_coded_category(s, codes[i]));
        }
    }
}

/// Sort law of the explore page: sort code `0` lists the newest shows first,
/// `1` the most popular first, `2` the latest years first and `3` the
/// earliest years first (the last two most popular first within a year);
/// any other code leaves the order to the database.
pub proof fn lemma_retrieve_plan_order(ask: AllShows, q: ShowQuery)
    requires
        retrieve_plan_spec(ask, q),
    ensures
        ask.sort == 0 ==> q.order is IdDesc,
        ask.sort == 1 ==> q.order is PopularDescIdDesc,
        ask.sort == 2 ==> q.order is YearDescPopularDesc,
        ask.sort == 3 ==> q.order is YearAscPopularDesc,
        ask.sort > 3 ==> q.order is Unordered,
{
}

/// What `Show::retrieveshows` ensures of the query it makes for `ask`.
pub open spec fn retrieve_plan_spec(ask: AllShows, q: ShowQuery) -> bool {
    &&& ask.categories@.len() == 0 ==> q.categories is NotIllegal
    &&& 1 <= ask.categories@.len() <= 3 && columns_of(ask.categories@).len() > 0 ==> (
    q.categories matches CategoryFilter::AnyOf(cs) && cs@ == columns_of(ask.categories@))
    &&& 1 <= ask.categories@.len() <= 3 && columns_of(ask.categories@).len() == 0 ==> q.categories is Every
    &&& ask.categories@.len() >= 4 ==> q.categories is Every
    &&& q.media == (match ask.media {
        Some(m) => medium_of(m),
        None => None,
    })
    &&& q.current_only
    &&& q.order == order_of(ask.sort)
    &&& q.limit is None
}

} // verus!
