use lykrysh::session::{
    count_after_create, count_after_delete, count_after_first_load, count_after_more, load_offset,
    ChatCnt, UpLoaded,
};

fn cnt(i: i64) -> Option<ChatCnt> {
    Some(ChatCnt::change(i))
}

#[test]
fn upload_and_counter_constructors() {
    assert_eq!(UpLoaded::add("cat.png").uploaded, "cat.png");
    assert_eq!(ChatCnt::init().i, 0);
    assert_eq!(ChatCnt::change(9).i, 9);
}

#[test]
fn first_page_sets_the_count() {
    assert_eq!(count_after_first_load(5).i, 5);
    assert_eq!(count_after_first_load(0).i, 0);
}

#[test]
fn next_page_offset_is_the_rows_sent() {
    let mut c = Some(count_after_first_load(5));
    assert_eq!(load_offset(&c), 5);
    c = count_after_more(c, 5);
    assert_eq!(load_offset(&c), 10);
    c = count_after_more(c, 3);
    assert_eq!(load_offset(&c), 13);
    c = count_after_more(c, 0);
    assert_eq!(load_offset(&c), 13);
    assert_eq!(load_offset(&None), 0);
}

#[test]
fn empty_page_leaves_an_empty_session_alone() {
    assert!(count_after_more(None, 0).is_none());
    assert_eq!(count_after_more(None, 4).unwrap().i, 4);
}

#[test]
fn posting_and_deleting() {
    assert_eq!(count_after_create(cnt(3)).i, 4);
    assert_eq!(count_after_create(None).i, 1);
    assert_eq!(count_after_delete(cnt(4)).i, 3);
    assert_eq!(count_after_delete(cnt(0)).i, 0);
    assert_eq!(count_after_delete(cnt(-2)).i, 0);
    assert_eq!(count_after_delete(None).i, 0);
    for c in [0, 1, 7, 1000] {
        let created = count_after_create(cnt(c));
        assert_eq!(count_after_delete(Some(created)).i, c);
    }
}
