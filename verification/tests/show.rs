use lykrysh::api::explore_view;
use lykrysh::db::{DbAction, DbReply, Failure, Next};
use lykrysh::query::Query;
use lykrysh::show::api::{explore_request, page_json};
use lykrysh::show::db::{ExplSqlIn, ListRun, OneShowOut, TastSixIn};
use lykrysh::show::model::{
    AllShows, CategoryColumn, CategoryFilter, MediaColumn, Page, Show,
    ShowOrder,
};

fn show(id: i32) -> Show {
    Show {
        id,
        imgnum: 1,
        title: format!("show {}", id),
        year: 2000,
        intro: String::new(),
        limitdate: None,
        popular: 0,
        mature: false,
        movin: true,
        still: false,
        graph: false,
        anime: false,
        illeg: false,
        cat1: true,
        cat2: false,
        cat3: false,
        cat4: false,
    }
}

fn plan(categories: Vec<u8>, sort: u8, media: Option<u8>) -> lykrysh::show::model::ShowQuery {
    Show::retrieveshows(&AllShows { categories, sort, media })
}

#[test]
fn taste_page_query() {
    let q = Show::tasteshows();
    assert!(matches!(q.categories, CategoryFilter::Every));
    assert!(q.media.is_none());
    assert!(q.current_only);
    assert!(matches!(q.order, ShowOrder::PopularDescIdDesc));
    assert_eq!(q.limit, Some(6));
}

#[test]
fn no_category_excludes_illegal_shows() {
    let q = plan(vec![], 0, None);
    assert!(matches!(q.categories, CategoryFilter::NotIllegal));
    assert!(matches!(q.order, ShowOrder::IdDesc));
    assert!(q.limit.is_none());
    assert!(q.current_only);
}

#[test]
fn some_categories_are_alternatives() {
    let q = plan(vec![1, 3], 2, Some(1));
    match q.categories {
        CategoryFilter::AnyOf(cs) => {
            assert_eq!(cs.len(), 2);
            assert!(matches!(cs[0], CategoryColumn::Cat2));
            assert!(matches!(cs[1], CategoryColumn::Cat4));
        }
        _ => panic!("expected alternatives"),
    }
    assert!(matches!(q.media, Some(MediaColumn::Still)));
    assert!(matches!(q.order, ShowOrder::YearDescPopularDesc));
}

#[test]
fn unknown_codes_are_passed_over() {
    let q = plan(vec![9, 0], 3, Some(7));
    match q.categories {
        CategoryFilter::AnyOf(cs) => {
            assert_eq!(cs.len(), 1);
            assert!(matches!(cs[0], CategoryColumn::Cat1));
        }
        _ => panic!("expected alternatives"),
    }
    assert!(q.media.is_none());
    assert!(matches!(q.order, ShowOrder::YearAscPopularDesc));
    let q = plan(vec![8], 9, None);
    assert!(matches!(q.categories, CategoryFilter::Every));
    assert!(matches!(q.order, ShowOrder::Unordered));
}

#[test]
fn all_four_categories_mean_no_filter() {
    let q = plan(vec![0, 1, 2, 3], 1, Some(3));
    assert!(matches!(q.categories, CategoryFilter::Every));
    assert!(matches!(q.media, Some(MediaColumn::Anime)));
    assert!(matches!(q.order, ShowOrder::PopularDescIdDesc));
}

#[test]
fn explore_request_from_query() {
    let mut q = Query::new();
    q.insert("cat3".to_string(), "on".to_string());
    q.insert("cat1".to_string(), "on".to_string());
    q.insert("sort".to_string(), "2".to_string());
    q.insert("media".to_string(), "animation".to_string());
    let r = explore_request(5, &q);
    assert_eq!(r.ipid, 5);
    assert_eq!(r.categories, vec![0, 2]);
    assert_eq!(r.sort, 2);
    assert_eq!(r.media, Some(3));
    let mut q = Query::new();
    q.insert("media".to_string(), "radio".to_string());
    let r = explore_request(0, &q);
    assert!(r.categories.is_empty());
    assert_eq!(r.media, None);
    let r = explore_request(0, &Query::new());
    assert!(r.categories.is_empty() && r.sort == 0 && r.media.is_none());
    for (name, code) in [("video", 0), ("photos", 1), ("graphics", 2)] {
        let mut q = Query::new();
        q.insert("media".to_string(), name.to_string());
        assert_eq!(explore_request(0, &q).media, Some(code));
    }
}

#[test]
fn page_with_gaps() {
    let p = page_json(Page {
        id: 1,
        showid: 2,
        mediahost: Some("yt".to_string()),
        mediaid: None,
        reference: Some("r".to_string()),
        ends: None,
    });
    assert_eq!(p.mediahost, "yt");
    assert_eq!(p.mediaid, "");
    assert_eq!(p.reference, "r");
    assert_eq!(p.ends, 0);
}

fn run_listing(mut run: ListRun, mut next: Next<Vec<OneShowOut>>, shows: Vec<Show>) -> Vec<OneShowOut> {
    let mut shows = Some(shows);
    loop {
        match next {
            Next::Done(Ok(v)) => return v,
            Next::Done(Err(_)) => panic!("listing failed"),
            Next::Run(DbAction::LoadShows(_)) => {
                let (r, n) = run.step(DbReply::Shows(shows.take().unwrap()));
                run = r;
                next = n;
            }
            Next::Run(DbAction::GetMakers(id)) => {
                let (r, n) = run.step(DbReply::Makers(vec![format!("maker of {}", id)]));
                run = r;
                next = n;
            }
            Next::Run(_) => panic!("unexpected query"),
        }
    }
}

#[test]
fn shows_are_paired_with_their_makers() {
    let (run, next) = TastSixIn { ipid: 0 }.start();
    let outs = run_listing(run, next, vec![show(4), show(2), show(9)]);
    assert_eq!(outs.len(), 3);
    assert_eq!(outs[0].oneshow.id, 4);
    assert_eq!(outs[2].oneshow.id, 9);
    assert_eq!(outs[1].makers, vec!["maker of 2".to_string()]);
}

#[test]
fn empty_listing_and_failures() {
    let (run, next) = ExplSqlIn { ipid: 0, categories: vec![0], sort: 0, media: None }.start();
    assert!(run_listing(run, next, vec![]).is_empty());
    let (run, _) = TastSixIn { ipid: 0 }.start();
    assert!(matches!(run.step(DbReply::Failed).1, Next::Done(Err(Failure::ReadingSix))));
    let (run, _) = ExplSqlIn { ipid: 0, categories: vec![], sort: 0, media: None }.start();
    assert!(matches!(run.step(DbReply::Failed).1, Next::Done(Err(Failure::ReadingSql))));
    let (run, _) = TastSixIn { ipid: 0 }.start();
    assert!(matches!(run.step(DbReply::NoConnection).1, Next::Done(Err(Failure::Connection))));
}

#[test]
fn ticks_agree_with_what_is_asked() {
    let mut q = Query::new();
    q.insert("cat2".to_string(), "on".to_string());
    q.insert("cat3".to_string(), "on".to_string());
    let v = explore_view(&q);
    let r = explore_request(0, &q);
    assert_eq!([v.cat1, v.cat2, v.cat3, v.cat4], [false, true, true, false]);
    assert_eq!(r.categories, vec![1, 2]);
    let mut q = Query::new();
    q.insert("sort".to_string(), "1".to_string());
    let v = explore_view(&q);
    assert!(v.cat1 && v.cat2 && v.cat3 && v.cat4);
    assert!(explore_request(0, &q).categories.is_empty());
}
