use lykrysh::query::Query;

#[test]
fn insert_get_and_replace() {
    let mut q = Query::new();
    assert_eq!(q.len(), 0);
    q.insert("sort".to_string(), "2".to_string());
    q.insert("cat1".to_string(), "on".to_string());
    assert_eq!(q.len(), 2);
    assert_eq!(q.get(&"sort".to_string()).map(|s| s.as_str()), Some("2"));
    q.insert("sort".to_string(), "3".to_string());
    assert_eq!(q.len(), 2);
    assert_eq!(q.get(&"sort".to_string()).map(|s| s.as_str()), Some("3"));
    assert!(q.get(&"cat2".to_string()).is_none());
}
