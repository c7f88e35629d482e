use lykrysh::time::PostedAt;

#[test]
fn chrono_writes_the_moment() {
    let p = PostedAt::from_timestamp(1431648000, 0).unwrap();
    assert_eq!(p.text(), "2015-05-15 00:00:00");
    assert_eq!(p.day_text(), "2015-05-15");
    assert_eq!(p.secs(), 1431648000);
    assert_eq!(p.nanos(), 0);
}

#[test]
fn fractions_are_written() {
    let p = PostedAt::from_timestamp(0, 500_000_000).unwrap();
    assert_eq!(p.text(), "1970-01-01 00:00:00.500");
    assert_eq!(p.day_text(), "1970-01-01");
}

#[test]
fn moments_chrono_lacks() {
    assert!(PostedAt::from_timestamp(i64::MAX, 0).is_none());
    assert!(PostedAt::from_timestamp(0, 2_000_000_000).is_none());
}
