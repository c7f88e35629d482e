use lykrysh::api::{client_ip, explore_view, visit, visitor_id};
use lykrysh::query::Query;
use lykrysh::text::i32_text;

fn query(pairs: &[(&str, &str)]) -> Query {
    let mut q = Query::new();
    for (k, v) in pairs {
        q.insert(k.to_string(), v.to_string());
    }
    q
}

#[test]
fn client_address_without_port() {
    assert_eq!(client_ip(Some("10.0.0.7:51234")), "10.0.0.7");
    assert_eq!(client_ip(Some("10.0.0.7")), "10.0.0.7");
    assert_eq!(client_ip(None), "0.0.0.0");
}

#[test]
fn known_visitors_are_not_looked_up_by_address() {
    let v = visit(Some("12".to_string()), Some("1.1.1.1:9"));
    assert_eq!(v.ident.as_deref(), Some("12"));
    assert!(v.ipaddr.is_none());
    let v = visit(None, Some("1.1.1.1:9"));
    assert!(v.ident.is_none());
    assert_eq!(v.ipaddr.as_deref(), Some("1.1.1.1"));
    let v = visit(None, None);
    assert_eq!(v.ipaddr.as_deref(), Some("0.0.0.0"));
}

#[test]
fn visitor_ids() {
    assert_eq!(visitor_id(Some("31")), 31);
    assert_eq!(visitor_id(Some("x31")), 0);
    assert_eq!(visitor_id(None), 0);
}

#[test]
fn remembered_id_is_recognised() {
    for id in [1, 77, 123456, i32::MAX] {
        assert_eq!(visitor_id(Some(&i32_text(id))), id);
    }
}

#[test]
fn explore_defaults_to_everything() {
    let v = explore_view(&Query::new());
    assert!(v.cat1 && v.cat2 && v.cat3 && v.cat4);
    assert_eq!(v.sort, 0);
}

#[test]
fn explore_ticks_the_named_categories() {
    let v = explore_view(&query(&[("cat2", "on"), ("cat4", "on"), ("sort", "3")]));
    assert!(!v.cat1 && v.cat2 && !v.cat3 && v.cat4);
    assert_eq!(v.sort, 3);
}

#[test]
fn explore_without_categories_ticks_all() {
    let v = explore_view(&query(&[("sort", "1")]));
    assert!(v.cat1 && v.cat2 && v.cat3 && v.cat4);
    assert_eq!(v.sort, 1);
    let v = explore_view(&query(&[("sort", "300")]));
    assert_eq!(v.sort, 0);
    let v = explore_view(&query(&[("cat1", ""), ("sort", "abc")]));
    assert!(v.cat1 && !v.cat2);
    assert_eq!(v.sort, 0);
}
