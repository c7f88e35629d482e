//! The chat board's conversations with the database.

use vstd::prelude::*;
use crate::db::{DbAction, DbReply, Failure, Next};
use crate::model::NewIp;
use crate::talk::model::{history_entry, history_of, Chat, EditChat, FlagIp, NewChat, NewSecret};
use crate::text::{decimal_text, i32_or_zero, i32_text, opt_text, parse_i32_or_zero};

verus! {

/// A chat as the board sends it to a visitor.
pub struct OneChatOut {
    pub id: i32,
    pub rootnum: i32,
    pub replnum: i32,
    /// The day it was posted, `YYYY-MM-DD`.
    pub posted: String,
    pub whosent: String,
    pub flag: i32,
    /// The attachment, or `none`.
    pub attached: String,
    pub description: String,
    /// Whether this visitor flagged it.
    pub youflagged: bool,
    /// Whether it follows a chat of the same thread.
    pub isrep: bool,
}

/// The text shown for an attachment: the link, or `none`.
pub open spec fn attached_text(a: Option<String>) -> Seq<char> {
    match a {
        Some(s) => s@,
        None => "none"@,
    }
}

/// The thread number of the chat shown before position `i`; zero before the
/// first.
pub open spec fn root_before(rows: Seq<Chat>, i: int) -> int {
    if i == 0 {
        0
    } else {
        rows[i - 1].rootnum as int
    }
}

/// `out` shows `row`, after a chat of thread `prev_root`, with `flagged`
/// telling whether this visitor flagged it.
pub open spec fn shows_chat(out: OneChatOut, row: Chat, prev_root: int, flagged: bool) -> bool {
    &&& out.id == row.id
    &&& out.rootnum == row.rootnum
    &&& out.replnum == row.replnum
    &&& out.posted@ == row.timeposted.day_shown()
    &&& out.whosent@ == row.whosent@
    &&& out.flag == row.flag
    &&& out.attached@ == attached_text(row.attached)
    &&& out.description@ == row.description@
    &&& out.youflagged == flagged
    &&& out.isrep == (row.rootnum == prev_root)
}

/// `outs` shows `rows` in order, with the flag marks `flagged`.
pub open spec fn shows_chats(rows: Seq<Chat>, flagged: Seq<bool>, outs: Seq<OneChatOut>) -> bool {
    &&& outs.len() == rows.len()
    &&& flagged.len() == rows.len()
    &&& forall|i: int|
        0 <= i < rows.len() ==> shows_chat(
            #[trigger] outs[i],
            rows[i],
            root_before(rows, i),
            flagged[i],
        )
}

/// The chats as the board sends them.
pub fn chat_outs(rows: &Vec<Chat>, flagged: &Vec<bool>) -> (outs: Vec<OneChatOut>)
    requires
        flagged@.len() == rows@.len(),
    ensures
        shows_chats(rows@, flagged@, outs@),
        outs@.len() == rows@.len(),
        forall|k: int| 0 < k < rows@.len() ==> (#[trigger] outs@[k]).isrep == (rows@[k].rootnum == rows@[k - 1].rootnum),
{
    let mut outs: Vec<OneChatOut> = Vec::new();
    let mut prevroot: i32 = 0;
    let mut i: usize = 0;
    while i < rows.len()
        invariant
            0 <= i <= rows@.len(),
            flagged@.len() == rows@.len(),
            outs@.len() == i,
            prevroot == root_before(rows@, i as int),
            forall|k: int|
                0 <= k < i ==> shows_chat(
                    #[trigger] outs@[k],
                    rows@[k],
                    root_before(rows@, k),
                    flagged@[k],
                ),
        decreases rows@.len() - i,
    {
        let t = &rows[i];
        let attached = match &t.attached {
            Some(link) => link.clone(),
            None => "none".to_owned(),
        };
        let ir = t.rootnum == prevroot;
        prevroot = t.rootnum;
        let out = OneChatOut {
            id: t.id,
            rootnum: t.rootnum,
            replnum: t.replnum,
            posted: t.timeposted.day_text(),
            whosent: t.whosent.clone(),
            flag: t.flag,
            attached,
            description: t.description.clone(),
            youflagged: flagged[i],
            isrep: ir,
        };
        outs.push(out);
        i = i + 1;
    }
    proof {
        lemma_replies_follow_the_chat_above(rows@, flagged@, outs@);
    }
    outs
}

/// Thread law of a page: each chat shown is marked as a reply exactly when
/// it is in the same thread as the chat just above it on the page; the first
/// chat of a page, with none above it, only when its thread number is zero.
pub proof fn lemma_replies_follow_the_chat_above(rows: Seq<Chat>, flagged: Seq<bool>, outs: Seq<OneChatOut>)
    requires
        shows_chats(rows, flagged, outs),
    ensures
        outs.len() == rows.len(),
        rows.len() > 0 ==> outs[0].isrep == (rows[0].rootnum == 0),
        forall|k: int| 0 < k < rows.len() ==> (#[trigger] outs[k]).isrep == (rows[k].rootnum == rows[k - 1].rootnum),
        forall|k: int| 0 <= k < rows.len() ==> (#[trigger] outs[k]).id == rows[k].id && outs[k].rootnum == rows[k].rootnum,
{
    assert forall|k: int| 0 <= k < rows.len() implies shows_chat(outs[k], rows[k], root_before(rows, k), flagged[k]) by {}
}

/// `after` extends the marks `before` over rows without flags, all unmarked.
pub open spec fn marks_after(rows: Seq<Chat>, before: Seq<bool>, after: Seq<bool>) -> bool {
    &&& before.is_prefix_of(after)
    &&& after.len() <= rows.len()
    &&& forall|i: int| before.len() <= i < after.len() ==> !#[trigger] after[i]
    &&& forall|i: int| before.len() <= i < after.len() ==> (#[trigger] rows[i]).flag <= 0
}

/// Finding out, chat by chat, which chats a visitor flagged: only chats with
/// flags are asked about.
pub struct FlagScan {
    /// The address asked about.
    pub ipid: i32,
    pub rows: Vec<Chat>,
    /// The marks found so far, one for each of the first rows.
    pub flagged: Vec<bool>,
}

impl FlagScan {
    /// The marks so far are sound: a chat without flags is never marked.
    pub open spec fn sound(self) -> bool {
        &&& self.flagged@.len() <= self.rows@.len()
        &&& forall|i: int|
            0 <= i < self.flagged@.len() && (#[trigger] self.rows@[i]).flag <= 0 ==> !self.flagged@[i]
    }

    /// Waiting for the answer about the next row, which has flags.
    pub open spec fn asking(self) -> bool {
        &&& self.sound()
        &&& self.flagged@.len() < self.rows@.len()
        &&& self.rows@[self.flagged@.len() as int].flag > 0
    }

    /// The lookup for the row asked about.
    pub open spec fn question(self) -> DbAction {
        DbAction::YouFlagged { chatid: self.rows@[self.flagged@.len() as int].id, ipid: self.ipid }
    }

    /// What a step of the scan leaves: the same rows and address, the marks
    /// `known` extended over rows without flags, and either the lookup for
    /// the next row with flags or every row marked.
    pub open spec fn continues(self, rows: Seq<Chat>, ipid: i32, known: Seq<bool>, ask: Option<DbAction>) -> bool {
        &&& self.ipid == ipid
        &&& self.rows@ == rows
        &&& self.sound()
        &&& marks_after(rows, known, self.flagged@)
        &&& match ask {
            Some(a) => self.asking() && a == self.question(),
            None => self.flagged@.len() == rows.len(),
        }
    }

    /// Marks the rows without flags as unflagged, up to the next row with
    /// flags, and asks about that one; `None` once every row is marked.
    fn advance(self) -> (r: (FlagScan, Option<DbAction>))
        requires
            self.sound(),
        ensures
            r.0.continues(self.rows@, self.ipid, self.flagged@, r.1),
    {
        let mut scan = self;
        let ghost start = scan.flagged@;
        while scan.flagged.len() < scan.rows.len() && scan.rows[scan.flagged.len()].flag <= 0
            invariant
                scan.ipid == self.ipid,
                scan.rows@ == self.rows@,
                scan.sound(),
                start == self.flagged@,
                marks_after(self.rows@, start, scan.flagged@),
            decreases scan.rows@.len() - scan.flagged@.len(),
        {
            let ghost before = scan.flagged@;
            scan.flagged.push(false);
            assert(scan.flagged@.subrange(0, start.len() as int) =~= before.subrange(
                0,
                start.len() as int,
            ));
        }
        if scan.flagged.len() < scan.rows.len() {
            let chatid = scan.rows[scan.flagged.len()].id;
            let ipid = scan.ipid;
            (scan, Some(DbAction::YouFlagged { chatid, ipid }))
        } else {
            (scan, None)
        }
    }

    /// Starts asking about `rows` for the address `ipid`.
    pub fn begin(rows: Vec<Chat>, ipid: i32) -> (r: (FlagScan, Option<DbAction>))
        ensures
            r.0.continues(rows@, ipid, Seq::empty(), r.1),
    {
        let scan = FlagScan { ipid, rows, flagged: Vec::new() };
        assert(scan.flagged@ =~= Seq::<bool>::empty());
        scan.advance()
    }

    /// Takes the answer about the row asked about: it is marked when the
    /// lookup found a flag of this visitor, and not when the lookup failed;
    /// then the scan goes on.
    pub fn answer(self, reply: DbReply) -> (r: (FlagScan, Option<DbAction>))
        requires
            self.asking(),
            reply is Rows || reply is Failed,
        ensures
            r.0.continues(
                self.rows@,
                self.ipid,
                self.flagged@.push(reply matches DbReply::Rows(n) && n > 0),
                r.1,
            ),
    {
        let found = match reply {
            DbReply::Rows(n) => n > 0,
            _ => false,
        };
        let mut scan = self;
        scan.flagged.push(found);
        scan.advance()
    }

    /// The chats as the board sends them, once every row is marked.
    pub fn finish(&self) -> (outs: Vec<OneChatOut>)
        requires
            self.flagged@.len() == self.rows@.len(),
        ensures
            shows_chats(self.rows@, self.flagged@, outs@),
            self.sound() ==> flags_sound(outs@),
    {
        let outs = chat_outs(&self.rows, &self.flagged);
        assert(self.sound() ==> flags_sound(outs@)) by {
            if self.sound() {
                assert forall|i: int| 0 <= i < outs@.len() && (#[trigger] outs@[i]).youflagged implies outs@[i].flag > 0 by {
                    assert(shows_chat(outs@[i], self.rows@[i], root_before(self.rows@, i), self.flagged@[i]));
                }
            }
        }
        outs
    }
}

/// Where reading a page of chats stands.
pub enum ReadStage {
    /// Waiting for the page of chats.
    AwaitChats { ipid: i32 },
    /// Asking, chat by chat, which chats the visitor flagged.
    AwaitFlag(FlagScan),
}

/// Reading a page of chats in progress.
pub struct ReadRun {
    pub stage: ReadStage,
}

/// A page of chats: five from `offset`, for the visitor with address id `ipid`.
pub struct ReadChats {
    pub offset: i64,
    pub ipid: i32,
}

/// Whether `listed` is an order in which the page query walks the chats of
/// `table`: each chat flagged fewer than four times, once, threads newest
/// first and the chats of a thread by reply number.
pub open spec fn chat_listing(table: Seq<Chat>, listed: Seq<Chat>) -> bool {
    &&& listed.to_multiset() == table.filter(|c: Chat| c.flag < 4).to_multiset()
    &&& forall|i: int, j: int|
        0 <= i < j < listed.len() ==> (#[trigger] listed[i]).rootnum > (#[trigger] listed[j]).rootnum || (
        listed[i].rootnum == listed[j].rootnum && listed[i].replnum <= listed[j].replnum)
}

/// The rows that a page query from `offset` answers: the five at that place
/// of the listing, or fewer at its end.
pub open spec fn chat_page(listed: Seq<Chat>, offset: nat) -> Seq<Chat> {
    let from = if offset <= listed.len() { offset as int } else { listed.len() as int };
    let to = if from + 5 <= listed.len() { from + 5 } else { listed.len() as int };
    listed.subrange(from, to)
}

/// The rows of `n` pages read one after the other, each from the number of
/// rows that came before it.
pub open spec fn pages_read(listed: Seq<Chat>, n: nat) -> Seq<Chat>
    decreases n,
{
    if n == 0 {
        Seq::empty()
    } else {
        let before = pages_read(listed, (n - 1) as nat);
        before + chat_page(listed, before.len())
    }
}

/// Reading pages one after the other, each from the count of rows already
/// read, gives the listing from its start, with no chat left out or shown
/// twice: `n` pages give its first `5 * n` chats, or all of them.
pub proof fn lemma_pages_read_listing(table: Seq<Chat>, listed: Seq<Chat>, n: nat)
    requires
        chat_listing(table, listed),
    ensures
        pages_read(listed, n) == listed.take(if 5 * n <= listed.len() { (5 * n) as int } else { listed.len() as int }),
    decreases n,
{
    if n > 0 {
        lemma_pages_read_listing(table, listed, (n - 1) as nat);
        assert(pages_read(listed, n) =~= listed.take(
            if 5 * n <= listed.len() { (5 * n) as int } else { listed.len() as int },
        ));
    } else {
        assert(pages_read(listed, 0) =~= listed.take(0));
    }
}

/// The result of a scan step for the page reader: the next lookup and the
/// scan in progress, or the chats shown with marks extending `known`.
pub open spec fn read_outcome(rows: Seq<Chat>, ipid: i32, known: Seq<bool>, r: (ReadRun, Next<Vec<OneChatOut>>)) -> bool {
    match r.1 {
        Next::Run(a) => r.0.stage matches ReadStage::AwaitFlag(s) && s.continues(rows, ipid, known, Some(a)),
        Next::Done(Ok(outs)) => flags_sound(outs@) && exists|f: Seq<bool>|
            f.len() == rows.len() && marks_after(rows, known, f) && #[trigger] shows_chats(rows, f, outs@),
        Next::Done(Err(_)) => false,
    }
}

/// Only chats with flags are shown as flagged by the visitor.
pub open spec fn flags_sound(outs: Seq<OneChatOut>) -> bool {
    forall|i: int| 0 <= i < outs.len() && (#[trigger] outs[i]).youflagged ==> outs[i].flag > 0
}

impl ReadChats {
    /// Starts by loading the page.
    pub fn start(self) -> (r: (ReadRun, Next<Vec<OneChatOut>>))
        ensures
            r.0.stage == (ReadStage::AwaitChats { ipid: self.ipid }),
            r.1 == Next::<Vec<OneChatOut>>::Run(DbAction::ReadChats(self.offset)),
    {
        (ReadRun { stage: ReadStage::AwaitChats { ipid: self.ipid } }, Next::Run(DbAction::ReadChats(self.offset)))
    }
}

impl ReadRun {
    /// The replies the run can take now.
    pub open spec fn expects(self, reply: DbReply) -> bool {
        match self.stage {
            ReadStage::AwaitChats { .. } => reply is NoConnection || reply is Failed || reply is Chats,
            ReadStage::AwaitFlag(scan) => scan.asking() && (reply is NoConnection || reply is Failed
                || reply is Rows),
        }
    }

    /// Takes a reply: a page that failed to load fails the request; a loaded
    /// page is scanned for the visitor's flags, then sent.
    pub fn step(self, reply: DbReply) -> (r: (ReadRun, Next<Vec<OneChatOut>>))
        requires
            self.expects(reply),
        ensures
            reply is NoConnection ==> r.1 == Next::<Vec<OneChatOut>>::Done(Err(Failure::Connection)),
            self.stage is AwaitChats ==> (reply is Failed ==> r.1 == Next::<Vec<OneChatOut>>::Done(
                Err(Failure::ReadingChats),
            )),
            self.stage matches ReadStage::AwaitChats { ipid } ==> (reply matches DbReply::Chats(rows)
                ==> read_outcome(rows@, ipid, Seq::empty(), r)),
            self.stage matches ReadStage::AwaitFlag(scan) ==> (!(reply is NoConnection) ==> read_outcome(
                scan.rows@,
                scan.ipid,
                scan.flagged@.push(reply matches DbReply::Rows(n) && n > 0),
                r,
            )),
    {
        match reply {
            DbReply::NoConnection => (self, Next::Done(Err(Failure::Connection))),
            _ => match self.stage {
                ReadStage::AwaitChats { ipid } => match reply {
                    DbReply::Chats(rows) => {
                        let (scan, ask) = FlagScan::begin(rows, ipid);
                        read_scanned(scan, ask)
                    },
                    _ => (ReadRun { stage: ReadStage::AwaitChats { ipid } }, Next::Done(Err(Failure::ReadingChats))),
                },
                ReadStage::AwaitFlag(scan) => {
                    let (scan, ask) = scan.answer(reply);
                    read_scanned(scan, ask)
                },
            },
        }
    }
}

/// Goes on with a scan: the next lookup, or the chats shown.
fn read_scanned(scan: FlagScan, ask: Option<DbAction>) -> (r: (ReadRun, Next<Vec<OneChatOut>>))
    requires
        scan.sound(),
        ask is None ==> scan.flagged@.len() == scan.rows@.len(),
        ask is Some ==> scan.asking() && ask == Some(scan.question()),
    ensures
        match r.1 {
            Next::Run(a) => ask == Some(a) && r.0.stage == ReadStage::AwaitFlag(scan),
            Next::Done(Ok(outs)) => ask is None && shows_chats(scan.rows@, scan.flagged@, outs@)
                && flags_sound(outs@),
            Next::Done(Err(_)) => false,
        },
{
    match ask {
        Some(a) => (ReadRun { stage: ReadStage::AwaitFlag(scan) }, Next::Run(a)),
        None => {
            let outs = scan.finish();
            (ReadRun { stage: ReadStage::AwaitFlag(scan) }, Next::Done(Ok(outs)))
        },
    }
}


/// The chats of the talk page, and the id of the visitor's address when it
/// was just recorded.
pub struct ChatsOut {
    pub ipid: Option<String>,
    pub res: Vec<OneChatOut>,
}

/// A visit of the talk page: the visitor's address when the visitor is not
/// known yet, or the id the visitor is known by.
pub struct ChatsIn {
    pub ipaddr: Option<String>,
    pub ident: Option<String>,
}

/// Where a talk page visit stands.
pub enum ChatsStage {
    /// Waiting for the recorded address.
    AwaitIp,
    /// Waiting for the first page of chats; `id` is the visitor's address id.
    AwaitChats { id: i32, newipid: Option<String> },
    /// Asking, chat by chat, which chats the visitor flagged.
    AwaitFlag { scan: FlagScan, newipid: Option<String> },
}

/// A talk page visit in progress.
pub struct ChatsRun {
    pub stage: ChatsStage,
}

/// The result of a scan step for the talk page: the next lookup and the scan
/// in progress, or the chats shown with marks extending `known`, with the
/// address id `newipid`.
pub open spec fn chats_outcome(rows: Seq<Chat>, ipid: i32, known: Seq<bool>, newipid: Option<Seq<char>>, r: (ChatsRun, Next<ChatsOut>)) -> bool {
    match r.1 {
        Next::Run(a) => r.0.stage matches ChatsStage::AwaitFlag { scan: s, newipid: n } && opt_text(n) == newipid && s.continues(rows, ipid, known, Some(a)),
        Next::Done(Ok(out)) => opt_text(out.ipid) == newipid && flags_sound(out.res@) && exists|f: Seq<bool>|
            f.len() == rows.len() && marks_after(rows, known, f) && #[trigger] shows_chats(rows, f, out.res@),
        Next::Done(Err(_)) => false,
    }
}

impl ChatsIn {
    /// Starts the visit: a known visitor's chats are read at once, asking
    /// about the flags of the id it is known by (zero when that is no
    /// number); an unknown visitor with an address has it recorded first;
    /// without either the chats are read for address id zero.
    pub fn start(self) -> (r: (ChatsRun, Next<ChatsOut>))
        ensures
            match self.ident {
                Some(s) => r.0.stage matches ChatsStage::AwaitChats { id, newipid } && id == i32_or_zero(s@) && newipid is None
                    && r.1 == Next::<ChatsOut>::Run(DbAction::ReadChats(0)),
                None => match self.ipaddr {
                    Some(a) => r.0.stage is AwaitIp && r.1 == Next::<ChatsOut>::Run(DbAction::UpsertIp(NewIp { ipaddr: a })),
                    None => r.0.stage matches ChatsStage::AwaitChats { id, newipid } && id == 0 && newipid is None
                        && r.1 == Next::<ChatsOut>::Run(DbAction::ReadChats(0)),
                },
            },
    {
        match self.ident {
            Some(s) => {
                let id = parse_i32_or_zero(s.as_str());
                (ChatsRun { stage: ChatsStage::AwaitChats { id, newipid: None } }, Next::Run(DbAction::ReadChats(0)))
            },
            None => match self.ipaddr {
                Some(a) => (ChatsRun { stage: ChatsStage::AwaitIp }, Next::Run(DbAction::UpsertIp(NewIp { ipaddr: a }))),
                None => (ChatsRun { stage: ChatsStage::AwaitChats { id: 0, newipid: None } }, Next::Run(DbAction::ReadChats(0))),
            },
        }
    }
}

impl ChatsRun {
    /// The replies the visit can take now; a failed upsert is left out, as the
    /// visit cannot go on without an id.
    pub open spec fn expects(self, reply: DbReply) -> bool {
        match self.stage {
            ChatsStage::AwaitIp => reply is NoConnection || reply is Ip,
            ChatsStage::AwaitChats { .. } => reply is NoConnection || reply is Failed || reply is Chats,
            ChatsStage::AwaitFlag { scan, .. } => scan.asking() && (reply is NoConnection || reply is Failed
                || reply is Rows),
        }
    }

    /// Takes a reply. A recorded address gives the id whose text is handed
    /// back, and the chats are read; a page that fails to load leaves the
    /// visit with no chats, not with an error.
    pub fn step(self, reply: DbReply) -> (r: (ChatsRun, Next<ChatsOut>))
        requires
            self.expects(reply),
        ensures
            reply is NoConnection ==> r.1 == Next::<ChatsOut>::Done(Err(Failure::Connection)),
            self.stage is AwaitIp ==> (reply matches DbReply::Ip(d) ==> (r.0.stage matches ChatsStage::AwaitChats { id, newipid }
                && id == d.id && opt_text(newipid) == Some(decimal_text(d.id as int))
                && r.1 == Next::<ChatsOut>::Run(DbAction::ReadChats(0)))),
            self.stage matches ChatsStage::AwaitChats { newipid, .. } ==> (reply is Failed ==> (r.1 matches Next::Done(Ok(out))
                && opt_text(out.ipid) == opt_text(newipid) && out.res@.len() == 0)),
            self.stage matches ChatsStage::AwaitChats { id, newipid } ==> (reply matches DbReply::Chats(rows)
                ==> chats_outcome(rows@, id, Seq::empty(), opt_text(newipid), r)),
            self.stage matches ChatsStage::AwaitFlag { scan, newipid } ==> (!(reply is NoConnection) ==> chats_outcome(
                scan.rows@,
                scan.ipid,
                scan.flagged@.push(reply matches DbReply::Rows(n) && n > 0),
                opt_text(newipid),
                r,
            )),
    {
        match reply {
            DbReply::NoConnection => (self, Next::Done(Err(Failure::Connection))),
            _ => match self.stage {
                ChatsStage::AwaitIp => match reply {
                    DbReply::Ip(d) => {
                        let text = i32_text(d.id);
                        (ChatsRun { stage: ChatsStage::AwaitChats { id: d.id, newipid: Some(text) } }, Next::Run(DbAction::ReadChats(0)))
                    },
                    _ => (ChatsRun { stage: ChatsStage::AwaitIp }, Next::Done(Err(Failure::Connection))),
                },
                ChatsStage::AwaitChats { id, newipid } => match reply {
                    DbReply::Chats(rows) => {
                        let (scan, ask) = FlagScan::begin(rows, id);
                        chats_scanned(scan, ask, newipid)
                    },
                    _ => (ChatsRun { stage: ChatsStage::AwaitIp }, Next::Done(Ok(ChatsOut { ipid: newipid, res: Vec::new() }))),
                },
                ChatsStage::AwaitFlag { scan, newipid } => {
                    let (scan, ask) = scan.answer(reply);
                    chats_scanned(scan, ask, newipid)
                },
            },
        }
    }
}

/// Goes on with a scan of the talk page: the next lookup, or the chats.
fn chats_scanned(scan: FlagScan, ask: Option<DbAction>, newipid: Option<String>) -> (r: (ChatsRun, Next<ChatsOut>))
    requires
        scan.sound(),
        ask is None ==> scan.flagged@.len() == scan.rows@.len(),
        ask is Some ==> scan.asking() && ask == Some(scan.question()),
    ensures
        match r.1 {
            Next::Run(a) => ask == Some(a) && r.0.stage == (ChatsStage::AwaitFlag { scan, newipid }),
            Next::Done(Ok(out)) => ask is None && out.ipid == newipid && shows_chats(scan.rows@, scan.flagged@, out.res@)
                && flags_sound(out.res@),
            Next::Done(Err(_)) => false,
        },
{
    match ask {
        Some(a) => (ChatsRun { stage: ChatsStage::AwaitFlag { scan, newipid } }, Next::Run(a)),
        None => {
            let res = scan.finish();
            (ChatsRun { stage: ChatsStage::AwaitIp }, Next::Done(Ok(ChatsOut { ipid: newipid, res })))
        },
    }
}


/// A chat to post: its thread when it replies to one, its secret, its
/// author's name and address, its attachment and its text.
pub struct CreateChat {
    pub inheritedid: Option<i32>,
    pub secret: String,
    pub whosent: String,
    pub ip: String,
    pub linky: Option<String>,
    pub description: String,
}

/// Where posting a chat stands.
pub enum CreateStage {
    /// Waiting for the author's recorded address.
    AwaitIp {
        inheritedid: Option<i32>,
        secret: String,
        whosent: String,
        linky: Option<String>,
        description: String,
    },
    /// Waiting for the inserted chat.
    AwaitInsert { inheritedid: Option<i32>, secret: String },
    /// Waiting for the highest reply number of thread `parent`.
    AwaitMax { id: i32, parent: i32, secret: String },
    /// Waiting while the chat is placed in its thread.
    AwaitLink { id: i32, secret: String },
    /// Waiting while the secret is stored.
    AwaitSecret { id: i32 },
    /// Waiting for the chat as stored.
    AwaitChat,
}

/// Posting a chat in progress.
pub struct CreateRun {
    pub stage: CreateStage,
}

impl CreateChat {
    /// Starts by recording the author's address.
    pub fn start(self) -> (r: (CreateRun, Next<Chat>))
        ensures
            r.1 == Next::<Chat>::Run(DbAction::UpsertIp(NewIp { ipaddr: self.ip })),
            r.0.stage == (CreateStage::AwaitIp {
                inheritedid: self.inheritedid,
                secret: self.secret,
                whosent: self.whosent,
                linky: self.linky,
                description: self.description,
            }),
    {
        let stage = CreateStage::AwaitIp {
            inheritedid: self.inheritedid,
            secret: self.secret,
            whosent: self.whosent,
            linky: self.linky,
            description: self.description,
        };
        (CreateRun { stage }, Next::Run(DbAction::UpsertIp(NewIp { ipaddr: self.ip })))
    }
}

impl CreateRun {
    /// The replies the run can take now. A highest reply number that cannot
    /// grow by one is left out.
    pub open spec fn expects(self, reply: DbReply) -> bool {
        reply is NoConnection || reply is Failed || match self.stage {
            CreateStage::AwaitIp { .. } => reply is Ip,
            CreateStage::AwaitInsert { .. } => reply is Chat,
            CreateStage::AwaitMax { .. } => reply matches DbReply::Number(n) && n < i32::MAX,
            CreateStage::AwaitLink { .. } => reply is Rows,
            CreateStage::AwaitSecret { .. } => reply is Rows,
            CreateStage::AwaitChat => reply is Chat,
        }
    }

    /// Takes a reply. The chat is inserted under the author's address id
    /// (zero when the address could not be recorded); a chat without a
    /// thread becomes the start of its own, a reply becomes the next reply of
    /// its thread (unless its highest reply number could not be read); then
    /// its secret is stored and the stored chat is the result. Failures to
    /// place the chat or store the secret are passed over.
    pub fn step(self, reply: DbReply) -> (r: (CreateRun, Next<Chat>))
        requires
            self.expects(reply),
        ensures
            reply is NoConnection ==> r.1 == Next::<Chat>::Done(Err(Failure::Connection)),
            !(reply is NoConnection) ==> match self.stage {
                CreateStage::AwaitIp { inheritedid, secret, whosent, linky, description } => {
                    let ipid: i32 = match reply {
                        DbReply::Ip(d) => d.id,
                        _ => 0,
                    };
                    &&& r.1 == Next::<Chat>::Run(
                        DbAction::InsertChat(NewChat { ipid, whosent, attached: linky, description }),
                    )
                    &&& r.0.stage == (CreateStage::AwaitInsert { inheritedid, secret })
                },
                CreateStage::AwaitInsert { inheritedid, secret } => match reply {
                    DbReply::Chat(c) => match inheritedid {
                        Some(p) => r.1 == Next::<Chat>::Run(DbAction::GetMaxReplnum(p)) && r.0.stage
                            == (CreateStage::AwaitMax { id: c.id, parent: p, secret }),
                        None => r.1 == Next::<Chat>::Run(DbAction::SetAsRoot(c.id)) && r.0.stage
                            == (CreateStage::AwaitLink { id: c.id, secret }),
                    },
                    _ => r.1 == Next::<Chat>::Done(Err(Failure::Insert)),
                },
                CreateStage::AwaitMax { id, parent, secret } => match reply {
                    DbReply::Number(n) => r.1 == Next::<Chat>::Run(
                        DbAction::SetAsRepl { id, parent, repl: (n + 1) as i32 },
                    ) && r.0.stage == (CreateStage::AwaitLink { id, secret }),
                    _ => r.1 == Next::<Chat>::Run(DbAction::InsertSecret(NewSecret { secret, chatid: id }))
                        && r.0.stage == (CreateStage::AwaitSecret { id }),
                },
                CreateStage::AwaitLink { id, secret } => r.1 == Next::<Chat>::Run(
                    DbAction::InsertSecret(NewSecret { secret, chatid: id }),
                ) && r.0.stage == (CreateStage::AwaitSecret { id }),
                CreateStage::AwaitSecret { id } => r.1 == Next::<Chat>::Run(DbAction::GetChat(id))
                    && r.0.stage is AwaitChat,
                CreateStage::AwaitChat => match reply {
                    DbReply::Chat(c) => r.1 == Next::<Chat>::Done(Ok(c)),
                    _ => r.1 == Next::<Chat>::Done(Err(Failure::SetAsRoot)),
                },
            },
    {
        match reply {
            DbReply::NoConnection => (self, Next::Done(Err(Failure::Connection))),
            _ => match self.stage {
                CreateStage::AwaitIp { inheritedid, secret, whosent, linky, description } => {
                    let ipid: i32 = match reply {
                        DbReply::Ip(d) => d.id,
                        _ => 0,
                    };
                    let chat = NewChat { ipid, whosent, attached: linky, description };
                    (CreateRun { stage: CreateStage::AwaitInsert { inheritedid, secret } }, Next::Run(DbAction::InsertChat(chat)))
                },
                CreateStage::AwaitInsert { inheritedid, secret } => match reply {
                    DbReply::Chat(c) => match inheritedid {
                        Some(p) => (
                            CreateRun { stage: CreateStage::AwaitMax { id: c.id, parent: p, secret } },
                            Next::Run(DbAction::GetMaxReplnum(p)),
                        ),
                        None => (
                            CreateRun { stage: CreateStage::AwaitLink { id: c.id, secret } },
                            Next::Run(DbAction::SetAsRoot(c.id)),
                        ),
                    },
                    _ => (CreateRun { stage: CreateStage::AwaitChat }, Next::Done(Err(Failure::Insert))),
                },
                CreateStage::AwaitMax { id, parent, secret } => match reply {
                    DbReply::Number(n) => (
                        CreateRun { stage: CreateStage::AwaitLink { id, secret } },
                        Next::Run(DbAction::SetAsRepl { id, parent, repl: n + 1 }),
                    ),
                    _ => (
                        CreateRun { stage: CreateStage::AwaitSecret { id } },
                        Next::Run(DbAction::InsertSecret(NewSecret { secret, chatid: id })),
                    ),
                },
                CreateStage::AwaitLink { id, secret } => (
                    CreateRun { stage: CreateStage::AwaitSecret { id } },
                    Next::Run(DbAction::InsertSecret(NewSecret { secret, chatid: id })),
                ),
                CreateStage::AwaitSecret { id } => (CreateRun { stage: CreateStage::AwaitChat }, Next::Run(DbAction::GetChat(id))),
                CreateStage::AwaitChat => match reply {
                    DbReply::Chat(c) => (CreateRun { stage: CreateStage::AwaitChat }, Next::Done(Ok(c))),
                    _ => (CreateRun { stage: CreateStage::AwaitChat }, Next::Done(Err(Failure::SetAsRoot))),
                },
            },
        }
    }
}

/// A request to act on a chat, with the password given for it.
pub struct ToggleChat {
    pub id: i32,
    pub pw: String,
}

/// Checking a chat's password in progress.
pub struct ToggleRun {
    pub id: i32,
    pub pw: String,
}

impl ToggleChat {
    /// Starts by reading the chat's secret.
    pub fn start(self) -> (r: (ToggleRun, Next<i32>))
        ensures
            r.1 == Next::<i32>::Run(DbAction::GetSecret(self.id)),
            r.0.id == self.id,
            r.0.pw == self.pw,
    {
        let id = self.id;
        (ToggleRun { id, pw: self.pw }, Next::Run(DbAction::GetSecret(id)))
    }
}

impl ToggleRun {
    /// Takes the secret: the chat's id when the password is the secret,
    /// zero when it is not.
    pub fn step(self, reply: DbReply) -> (r: (ToggleRun, Next<i32>))
        requires
            reply is NoConnection || reply is Failed || reply is Secret,
        ensures
            reply is NoConnection ==> r.1 == Next::<i32>::Done(Err(Failure::Connection)),
            reply is Failed ==> r.1 == Next::<i32>::Done(Err(Failure::CheckingSecret)),
            reply matches DbReply::Secret(s) ==> r.1 == Next::<i32>::Done(
                Ok(if s@ == self.pw@ { self.id } else { 0 }),
            ),
    {
        match reply {
            DbReply::NoConnection => (self, Next::Done(Err(Failure::Connection))),
            DbReply::Secret(s) => {
                let out = if s == self.pw {
                    self.id
                } else {
                    0
                };
                (self, Next::Done(Ok(out)))
            },
            _ => (self, Next::Done(Err(Failure::CheckingSecret))),
        }
    }
}

/// A request to delete a chat, with the password given for it.
pub struct DeleteChat {
    pub id: i32,
    pub pw: String,
}

/// Where deleting a chat stands.
pub enum DeleteStage {
    /// Waiting for the chat's secret, to check the password.
    AwaitSecret { id: i32, pw: String },
    /// The password matched; waiting for the chat, to keep its history.
    AwaitChat { id: i32 },
    /// Waiting while the history is kept.
    AwaitHistory { id: i32 },
    /// Waiting for the deletion.
    AwaitDelete,
}

/// Deleting a chat in progress.
pub struct DeleteRun {
    pub stage: DeleteStage,
}

impl DeleteRun {
    /// The password has been found to match the chat's secret.
    pub open spec fn cleared(self) -> bool {
        !(self.stage is AwaitSecret)
    }

    /// The reply is the chat's secret and the password given is that secret.
    pub open spec fn matches_secret(self, reply: DbReply) -> bool {
        match (self.stage, reply) {
            (DeleteStage::AwaitSecret { pw, .. }, DbReply::Secret(s)) => s@ == pw@,
            _ => false,
        }
    }

    /// The replies the run can take now.
    pub open spec fn expects(self, reply: DbReply) -> bool {
        reply is NoConnection || reply is Failed || match self.stage {
            DeleteStage::AwaitSecret { .. } => reply is Secret,
            DeleteStage::AwaitChat { .. } => reply is Chat,
            DeleteStage::AwaitHistory { .. } => reply is Rows,
            DeleteStage::AwaitDelete => reply is Rows,
        }
    }
}

/// A step that keeps the password guard: the run becomes cleared only on a
/// secret matching the password, and asks for deletion only once cleared.
pub open spec fn guarded_step(before: DeleteRun, reply: DbReply, after: DeleteRun, next: Next<usize>) -> bool {
    &&& after.cleared() ==> before.cleared() || before.matches_secret(reply)
    &&& next matches Next::Run(DbAction::DeleteWithId(_)) ==> before.cleared()
}

/// A run that starts uncleared and is cleared at step `m` met a secret that
/// matched the password at some earlier step.
proof fn lemma_cleared_after_match(runs: Seq<DeleteRun>, replies: Seq<DbReply>, nexts: Seq<Next<usize>>, m: int)
    requires
        runs.len() == replies.len() + 1,
        nexts.len() == replies.len(),
        !runs[0].cleared(),
        forall|i: int| 0 <= i < replies.len() ==> #[trigger] guarded_step(runs[i], replies[i], runs[i + 1], nexts[i]),
        0 <= m < runs.len(),
        runs[m].cleared(),
    ensures
        exists|j: int| 0 <= j < m && #[trigger] runs[j].matches_secret(replies[j]),
    decreases m,
{
    assert(guarded_step(runs[m - 1], replies[m - 1], runs[m - 1 + 1], nexts[m - 1]));
    if runs[m - 1].cleared() {
        lemma_cleared_after_match(runs, replies, nexts, m - 1);
        let j = choose|j: int| 0 <= j < m - 1 && #[trigger] runs[j].matches_secret(replies[j]);
        assert(runs[j].matches_secret(replies[j]));
    } else {
        assert(runs[m - 1].matches_secret(replies[m - 1]));
    }
}

/// Deletion law: in any run of deleting a chat, from its start, the deletion
/// is asked for only after the chat's secret came back equal to the password.
pub proof fn lemma_delete_needs_password(runs: Seq<DeleteRun>, replies: Seq<DbReply>, nexts: Seq<Next<usize>>, k: int)
    requires
        runs.len() == replies.len() + 1,
        nexts.len() == replies.len(),
        !runs[0].cleared(),
        forall|i: int| 0 <= i < replies.len() ==> #[trigger] guarded_step(runs[i], replies[i], runs[i + 1], nexts[i]),
        0 <= k < nexts.len(),
        nexts[k] matches Next::Run(DbAction::DeleteWithId(_)),
    ensures
        exists|j: int| 0 <= j < k && #[trigger] runs[j].matches_secret(replies[j]),
{
    assert(guarded_step(runs[k], replies[k], runs[k + 1], nexts[k]));
    lemma_cleared_after_match(runs, replies, nexts, k);
}

impl DeleteChat {
    /// Starts by reading the chat's secret; nothing is cleared yet.
    pub fn start(self) -> (r: (DeleteRun, Next<usize>))
        ensures
            r.1 == Next::<usize>::Run(DbAction::GetSecret(self.id)),
            r.0.stage == (DeleteStage::AwaitSecret { id: self.id, pw: self.pw }),
            !r.0.cleared(),
    {
        let id = self.id;
        (DeleteRun { stage: DeleteStage::AwaitSecret { id, pw: self.pw } }, Next::Run(DbAction::GetSecret(id)))
    }
}

impl DeleteRun {
    /// Takes a reply. A wrong password deletes nothing and gives zero; a
    /// right one keeps the chat's old state in the history (when the chat can
    /// be read) and deletes it, giving the rows deleted. Deletion is asked
    /// for only once the password has matched.
    pub fn step(self, reply: DbReply) -> (r: (DeleteRun, Next<usize>))
        requires
            self.expects(reply),
        ensures
            reply is NoConnection ==> r.1 == Next::<usize>::Done(Err(Failure::Connection)),
            guarded_step(self, reply, r.0, r.1),
            !(reply is NoConnection) ==> match self.stage {
                DeleteStage::AwaitSecret { id, pw } => match reply {
                    DbReply::Secret(s) => if s@ == pw@ {
                        r.1 == Next::<usize>::Run(DbAction::GetChat(id)) && r.0.stage == (DeleteStage::AwaitChat { id })
                    } else {
                        r.1 == Next::<usize>::Done(Ok(0))
                    },
                    _ => r.1 == Next::<usize>::Done(Err(Failure::CheckingSecret)),
                },
                DeleteStage::AwaitChat { id } => match reply {
                    DbReply::Chat(c) => r.1 matches Next::Run(DbAction::InsertHistory(h)) && history_of(c, "deleted"@, h)
                        && r.0.stage == (DeleteStage::AwaitHistory { id }),
                    _ => r.1 == Next::<usize>::Run(DbAction::DeleteWithId(id)) && r.0.stage is AwaitDelete,
                },
                DeleteStage::AwaitHistory { id } => r.1 == Next::<usize>::Run(DbAction::DeleteWithId(id))
                    && r.0.stage is AwaitDelete,
                DeleteStage::AwaitDelete => match reply {
                    DbReply::Rows(n) => r.1 == Next::<usize>::Done(Ok(n)),
                    _ => r.1 == Next::<usize>::Done(Err(Failure::DeletingTask)),
                },
            },
    {
        match reply {
            DbReply::NoConnection => (self, Next::Done(Err(Failure::Connection))),
            _ => match self.stage {
                DeleteStage::AwaitSecret { id, pw } => match reply {
                    DbReply::Secret(s) => {
                        if s == pw {
                            (DeleteRun { stage: DeleteStage::AwaitChat { id } }, Next::Run(DbAction::GetChat(id)))
                        } else {
                            (DeleteRun { stage: DeleteStage::AwaitSecret { id, pw } }, Next::Done(Ok(0)))
                        }
                    },
                    _ => (DeleteRun { stage: DeleteStage::AwaitSecret { id, pw } }, Next::Done(Err(Failure::CheckingSecret))),
                },
                DeleteStage::AwaitChat { id } => match reply {
                    DbReply::Chat(c) => {
                        let h = history_entry(c, "deleted");
                        (DeleteRun { stage: DeleteStage::AwaitHistory { id } }, Next::Run(DbAction::InsertHistory(h)))
                    },
                    _ => (DeleteRun { stage: DeleteStage::AwaitDelete }, Next::Run(DbAction::DeleteWithId(id))),
                },
                DeleteStage::AwaitHistory { id } => (DeleteRun { stage: DeleteStage::AwaitDelete }, Next::Run(DbAction::DeleteWithId(id))),
                DeleteStage::AwaitDelete => match reply {
                    DbReply::Rows(n) => (DeleteRun { stage: DeleteStage::AwaitDelete }, Next::Done(Ok(n))),
                    _ => (DeleteRun { stage: DeleteStage::AwaitDelete }, Next::Done(Err(Failure::DeletingTask))),
                },
            },
        }
    }
}

/// Where editing a chat stands.
pub enum EditStage {
    /// Waiting for the chat, to keep its history.
    AwaitChat { edit: EditChat },
    /// Waiting while the history is kept.
    AwaitHistory { edit: EditChat },
    /// Waiting for the rewrite.
    AwaitRewrite,
}

/// Editing a chat in progress.
pub struct EditRun {
    pub stage: EditStage,
}

impl EditChat {
    /// Starts by reading the chat as it is.
    pub fn start(self) -> (r: (EditRun, Next<usize>))
        ensures
            r.1 == Next::<usize>::Run(DbAction::GetChat(self.id)),
            r.0.stage == (EditStage::AwaitChat { edit: self }),
    {
        let id = self.id;
        (EditRun { stage: EditStage::AwaitChat { edit: self } }, Next::Run(DbAction::GetChat(id)))
    }
}

impl EditRun {
    /// The replies the run can take now.
    pub open spec fn expects(self, reply: DbReply) -> bool {
        reply is NoConnection || reply is Failed || match self.stage {
            EditStage::AwaitChat { .. } => reply is Chat,
            EditStage::AwaitHistory { .. } => reply is Rows,
            EditStage::AwaitRewrite => reply is Rows,
        }
    }

    /// Takes a reply: the chat's old state goes to the history (when the
    /// chat can be read), then the chat is rewritten, giving the rows
    /// rewritten.
    pub fn step(self, reply: DbReply) -> (r: (EditRun, Next<usize>))
        requires
            self.expects(reply),
        ensures
            reply is NoConnection ==> r.1 == Next::<usize>::Done(Err(Failure::Connection)),
            !(reply is NoConnection) ==> match self.stage {
                EditStage::AwaitChat { edit } => match reply {
                    DbReply::Chat(c) => r.1 matches Next::Run(DbAction::InsertHistory(h)) && history_of(c, "edited"@, h)
                        && r.0.stage == (EditStage::AwaitHistory { edit }),
                    _ => r.1 == Next::<usize>::Run(DbAction::ReWriteDesc(edit)) && r.0.stage is AwaitRewrite,
                },
                EditStage::AwaitHistory { edit } => r.1 == Next::<usize>::Run(DbAction::ReWriteDesc(edit))
                    && r.0.stage is AwaitRewrite,
                EditStage::AwaitRewrite => match reply {
                    DbReply::Rows(n) => r.1 == Next::<usize>::Done(Ok(n)),
                    _ => r.1 == Next::<usize>::Done(Err(Failure::DeletingTask)),
                },
            },
    {
        match reply {
            DbReply::NoConnection => (self, Next::Done(Err(Failure::Connection))),
            _ => match self.stage {
                EditStage::AwaitChat { edit } => match reply {
                    DbReply::Chat(c) => {
                        let h = history_entry(c, "edited");
                        (EditRun { stage: EditStage::AwaitHistory { edit } }, Next::Run(DbAction::InsertHistory(h)))
                    },
                    _ => (EditRun { stage: EditStage::AwaitRewrite }, Next::Run(DbAction::ReWriteDesc(edit))),
                },
                EditStage::AwaitHistory { edit } => (EditRun { stage: EditStage::AwaitRewrite }, Next::Run(DbAction::ReWriteDesc(edit))),
                EditStage::AwaitRewrite => match reply {
                    DbReply::Rows(n) => (EditRun { stage: EditStage::AwaitRewrite }, Next::Done(Ok(n))),
                    _ => (EditRun { stage: EditStage::AwaitRewrite }, Next::Done(Err(Failure::DeletingTask))),
                },
            },
        }
    }
}


/// A flag put on, or taken off (`dir` is `-`), a chat by an address.
pub struct FlagChat {
    pub ip: String,
    pub chatid: i32,
    pub dir: String,
}

/// Where flagging a chat stands.
pub enum FlagStage {
    /// Waiting for the flagger's recorded address.
    AwaitIp { chatid: i32, down: bool },
    /// Waiting while the chat's flag count changes.
    AwaitCount { ipid: i32, chatid: i32, down: bool },
    /// Waiting while the flagger is recorded or forgotten.
    AwaitWho { chatid: i32 },
    /// Waiting for the chat's flag count.
    AwaitFlag,
}

/// Flagging a chat in progress.
pub struct FlagRun {
    pub stage: FlagStage,
}

fn is_minus(s: &str) -> (b: bool)
    ensures
        b == (s@ == seq!['-']),
{
    let b = s.unicode_len() == 1 && s.get_char(0) == '-';
    proof {
        if s@.len() == 1 {
            assert(b == (s@ =~= seq!['-']));
        }
    }
    b
}

impl FlagChat {
    /// Starts by recording the flagger's address; `-` takes a flag off, any
    /// other direction puts one on.
    pub fn start(self) -> (r: (FlagRun, Next<i32>))
        ensures
            r.1 == Next::<i32>::Run(DbAction::UpsertIp(NewIp { ipaddr: self.ip })),
            r.0.stage == (FlagStage::AwaitIp { chatid: self.chatid, down: self.dir@ == seq!['-'] }),
    {
        let down = is_minus(self.dir.as_str());
        (FlagRun { stage: FlagStage::AwaitIp { chatid: self.chatid, down } }, Next::Run(DbAction::UpsertIp(NewIp { ipaddr: self.ip })))
    }
}

impl FlagRun {
    /// The replies the run can take now.
    pub open spec fn expects(self, reply: DbReply) -> bool {
        reply is NoConnection || reply is Failed || match self.stage {
            FlagStage::AwaitIp { .. } => reply is Ip,
            FlagStage::AwaitCount { .. } => reply is Rows,
            FlagStage::AwaitWho { .. } => reply is Rows,
            FlagStage::AwaitFlag => reply is Number,
        }
    }

    /// Takes a reply. The count changes by one; when it did, the flagger (by
    /// address id, zero when the address could not be recorded) is recorded
    /// or forgotten; the result is the chat's flag count.
    pub fn step(self, reply: DbReply) -> (r: (FlagRun, Next<i32>))
        requires
            self.expects(reply),
        ensures
            reply is NoConnection ==> r.1 == Next::<i32>::Done(Err(Failure::Connection)),
            !(reply is NoConnection) ==> match self.stage {
                FlagStage::AwaitIp { chatid, down } => {
                    let ipid: i32 = match reply {
                        DbReply::Ip(d) => d.id,
                        _ => 0,
                    };
                    &&& r.1 == Next::<i32>::Run(
                        if down {
                            DbAction::SubFlagnum(chatid)
                        } else {
                            DbAction::AddFlagnum(chatid)
                        },
                    )
                    &&& r.0.stage == (FlagStage::AwaitCount { ipid, chatid, down })
                },
                FlagStage::AwaitCount { ipid, chatid, down } => match reply {
                    DbReply::Rows(_) => r.1 == Next::<i32>::Run(
                        if down {
                            DbAction::RmWhoFlagged(FlagIp { ipid, chatid })
                        } else {
                            DbAction::WhoFlagged(FlagIp { ipid, chatid })
                        },
                    ) && r.0.stage == (FlagStage::AwaitWho { chatid }),
                    _ => r.1 == Next::<i32>::Run(DbAction::GetFlag(chatid)) && r.0.stage is AwaitFlag,
                },
                FlagStage::AwaitWho { chatid } => r.1 == Next::<i32>::Run(DbAction::GetFlag(chatid))
                    && r.0.stage is AwaitFlag,
                FlagStage::AwaitFlag => match reply {
                    DbReply::Number(n) => r.1 == Next::<i32>::Done(Ok(n)),
                    _ => r.1 == Next::<i32>::Done(Err(Failure::Flagging)),
                },
            },
    {
        match reply {
            DbReply::NoConnection => (self, Next::Done(Err(Failure::Connection))),
            _ => match self.stage {
                FlagStage::AwaitIp { chatid, down } => {
                    let ipid: i32 = match reply {
                        DbReply::Ip(d) => d.id,
                        _ => 0,
                    };
                    let action = if down {
                        DbAction::SubFlagnum(chatid)
                    } else {
                        DbAction::AddFlagnum(chatid)
                    };
                    (FlagRun { stage: FlagStage::AwaitCount { ipid, chatid, down } }, Next::Run(action))
                },
                FlagStage::AwaitCount { ipid, chatid, down } => match reply {
                    DbReply::Rows(_) => {
                        let action = if down {
                            DbAction::RmWhoFlagged(FlagIp { ipid, chatid })
                        } else {
                            DbAction::WhoFlagged(FlagIp { ipid, chatid })
                        };
                        (FlagRun { stage: FlagStage::AwaitWho { chatid } }, Next::Run(action))
                    },
                    _ => (FlagRun { stage: FlagStage::AwaitFlag }, Next::Run(DbAction::GetFlag(chatid))),
                },
                FlagStage::AwaitWho { chatid } => (FlagRun { stage: FlagStage::AwaitFlag }, Next::Run(DbAction::GetFlag(chatid))),
                FlagStage::AwaitFlag => match reply {
                    DbReply::Number(n) => (FlagRun { stage: FlagStage::AwaitFlag }, Next::Done(Ok(n))),
                    _ => (FlagRun { stage: FlagStage::AwaitFlag }, Next::Done(Err(Failure::Flagging))),
                },
            },
        }
    }
}

} // verus!
