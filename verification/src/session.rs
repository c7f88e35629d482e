//! What a visitor's session remembers: the last uploaded file and how many
//! chat rows the visitor has been sent, with the rules that move that count.

use vstd::prelude::*;

verus! {

/// The name of the file the visitor uploaded last.
pub struct UpLoaded {
    pub uploaded: String,
}

impl UpLoaded {
    /// Remembers `uploaded` as the uploaded file.
    pub fn add(uploaded: &str) -> (r: Self)
        ensures
            r.uploaded@ == uploaded@,
    {
        UpLoaded { uploaded: uploaded.to_owned() }
    }
}

/// How many chat rows the visitor has been sent so far.
pub struct ChatCnt {
    pub i: i64,
}

impl ChatCnt {
    /// A count of nothing sent yet.
    pub fn init() -> (r: Self)
        ensures
            r.i == 0,
    {
        ChatCnt { i: 0 }
    }

    /// A count of `cnt` rows.
    pub fn change(cnt: i64) -> (r: Self)
        ensures
            r.i == cnt,
    {
        ChatCnt { i: cnt }
    }
}

/// The count a session holds; a session without one counts as zero.
pub open spec fn count_of(cnt: Option<ChatCnt>) -> int {
    match cnt {
        Some(c) => c.i as int,
        None => 0,
    }
}

/// The count after more rows were loaded: unchanged when none came,
/// otherwise grown by the rows that came.
pub open spec fn more_loaded(cnt: Option<ChatCnt>, n: int) -> Option<ChatCnt> {
    if n == 0 {
        cnt
    } else {
        Some(ChatCnt { i: (count_of(cnt) + n) as i64 })
    }
}

/// The count after the visitor posted a chat.
pub open spec fn created_count(cnt: Option<ChatCnt>) -> int {
    count_of(cnt) + 1
}

/// The count after the visitor deleted a chat: one less, never below zero.
pub open spec fn deleted_count(cnt: Option<ChatCnt>) -> int {
    if count_of(cnt) > 0 {
        count_of(cnt) - 1
    } else {
        0
    }
}

/// The offset of the next page of chats: the rows already sent.
pub fn load_offset(cnt: &Option<ChatCnt>) -> (o: i64)
    ensures
        o == count_of(*cnt),
{
    match cnt {
        Some(c) => c.i,
        None => 0,
    }
}

/// The count once the first page brought `n` rows.
pub fn count_after_first_load(n: usize) -> (r: ChatCnt)
    requires
        n <= i64::MAX,
    ensures
        r.i == n,
{
    ChatCnt::change(n as i64)
}

/// The count once a further page brought `n` rows; `None` stays `None` when
/// no row came, as the session is then left alone.
pub fn count_after_more(cnt: Option<ChatCnt>, n: usize) -> (r: Option<ChatCnt>)
    requires
        n <= i64::MAX,
        count_of(cnt) + n <= i64::MAX,
    ensures
        r == more_loaded(cnt, n as int),
{
    if n == 0 {
        cnt
    } else {
        match cnt {
            Some(c) => {
                let r = ChatCnt::change(c.i + n as i64);
                assert(r == ChatCnt { i: (count_of(cnt) + n) as i64 });
                Some(r)
            },
            None => {
                let r = ChatCnt::change(n as i64);
                assert(r == ChatCnt { i: (count_of(cnt) + n) as i64 });
                Some(r)
            },
        }
    }
}

/// The count once the visitor posted a chat.
pub fn count_after_create(cnt: Option<ChatCnt>) -> (r: ChatCnt)
    requires
        count_of(cnt) < i64::MAX,
    ensures
        r.i == created_count(cnt),
{
    match cnt {
        Some(c) => ChatCnt::change(c.i + 1),
        None => ChatCnt::change(1),
    }
}

/// The count once the visitor deleted a chat.
pub fn count_after_delete(cnt: Option<ChatCnt>) -> (r: ChatCnt)
    ensures
        r.i == deleted_count(cnt),
{
    match cnt {
        Some(c) => {
            let counter: i64 = if c.i > 0 {
                c.i - 1
            } else {
                0
            };
            ChatCnt::change(counter)
        },
        None => ChatCnt::change(0),
    }
}

/// The sum of page sizes.
pub open spec fn pages_total(pages: Seq<int>) -> int
    decreases pages.len(),
{
    if pages.len() == 0 {
        0
    } else {
        pages_total(pages.drop_last()) + pages.last()
    }
}

/// The count after a first page of `first` rows and then the pages `more`.
pub open spec fn after_pages(first: int, more: Seq<int>) -> Option<ChatCnt>
    decreases more.len(),
{
    if more.len() == 0 {
        Some(ChatCnt { i: first as i64 })
    } else {
        more_loaded(after_pages(first, more.drop_last()), more.last())
    }
}

/// Paging law: after a first page and any further pages, the offset of the
/// next page is the number of rows sent in all of them.
pub proof fn lemma_offset_counts_all_pages(first: int, more: Seq<int>)
    requires
        0 <= first,
        forall|k: int| 0 <= k < more.len() ==> 0 <= #[trigger] more[k],
        first + pages_total(more) <= i64::MAX,
    ensures
        count_of(after_pages(first, more)) == first + pages_total(more),
    decreases more.len(),
{
    if more.len() > 0 {
        let rest = more.drop_last();
        assert forall|k: int| 0 <= k < rest.len() implies 0 <= #[trigger] rest[k] by {
            assert(rest[k] == more[k]);
        }
        assert(more.last() == more[more.len() - 1]);
        lemma_pages_total_nonneg(rest);
        lemma_offset_counts_all_pages(first, rest);
    }
}

proof fn lemma_pages_total_nonneg(pages: Seq<int>)
    requires
        forall|k: int| 0 <= k < pages.len() ==> 0 <= #[trigger] pages[k],
    ensures
        pages_total(pages) >= 0,
    decreases pages.len(),
{
    if pages.len() > 0 {
        let rest = pages.drop_last();
        assert forall|k: int| 0 <= k < rest.len() implies 0 <= #[trigger] rest[k] by {
            assert(rest[k] == pages[k]);
        }
        assert(pages.last() == pages[pages.len() - 1]);
        lemma_pages_total_nonneg(rest);
    }
}

/// Posting a chat and deleting one brings a count back to where it was.
pub proof fn lemma_create_then_delete(c: i64)
    requires
        0 <= c < i64::MAX,
    ensures
        deleted_count(Some(ChatCnt { i: created_count(Some(ChatCnt { i: c })) as i64 })) == c,
{
}

/// No rule makes a count negative: from a count of zero or more, every
/// following count is zero or more.
pub proof fn lemma_counts_stay_natural(cnt: Option<ChatCnt>, n: int)
    requires
        count_of(cnt) >= 0,
        n >= 0,
        count_of(cnt) + n <= i64::MAX,
    ensures
        count_of(more_loaded(cnt, n)) >= 0,
        created_count(cnt) >= 0,
        deleted_count(cnt) >= 0,
{
}

} // verus!
