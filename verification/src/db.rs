//! How the library talks with the database: each request is a small machine
//! that, given the reply to its last query, names the next query or finishes.
//! The caller runs the queries and hands back their replies.

use vstd::prelude::*;
use crate::model::{DoneIp, NewIp};
use crate::show::model::{Show, ShowQuery};
use crate::talk::model::{Chat, EditChat, FlagIp, HistoryChat, NewChat, NewSecret};
use crate::text::{decimal_text, i32_text};

verus! {

/// Why a request failed; each becomes an internal server error whose message
/// the variant names.
pub enum Failure {
    /// The pool had no connection to give.
    Connection,
    /// "Error reading 6"
    ReadingSix,
    /// "Error reading sql"
    ReadingSql,
    /// "Error reading chats"
    ReadingChats,
    /// "Error checking secret"
    CheckingSecret,
    /// "Error insert"
    Insert,
    /// "Error set_as_root"
    SetAsRoot,
    /// "Error deleting task"
    DeletingTask,
    /// "Error flagging"
    Flagging,
}

/// A query for the caller to run.
pub enum DbAction {
    /// Record the address, or mark it seen again; answered by `Ip`.
    UpsertIp(NewIp),
    /// Load the shows the query selects; answered by `Shows`.
    LoadShows(ShowQuery),
    /// The names of the makers of the show with this id; answered by `Makers`.
    GetMakers(i32),
    /// Five chats from this offset, threads newest first, replies in order,
    /// leaving out chats flagged four times or more (`chat_page` of a
    /// `chat_listing` in `talk::db`); answered by `Chats`.
    ReadChats(i64),
    /// The flags the address `ipid` put on the chat `chatid`; answered by
    /// `Rows` with their number.
    YouFlagged { chatid: i32, ipid: i32 },
    /// Insert the chat; answered by `Chat` with the inserted row.
    InsertChat(NewChat),
    /// The highest reply number in the thread; answered by `Number`.
    GetMaxReplnum(i32),
    /// Make chat `id` reply number `repl` of thread `parent`; answered by `Rows`.
    SetAsRepl { id: i32, parent: i32, repl: i32 },
    /// Make chat `id` the start of its own thread; answered by `Rows`.
    SetAsRoot(i32),
    /// Store the secret of a chat; answered by `Rows`.
    InsertSecret(NewSecret),
    /// The chat with this id; answered by `Chat`.
    GetChat(i32),
    /// The secret of the chat with this id; answered by `Secret`.
    GetSecret(i32),
    /// Keep the old state of a chat; answered by `Rows`.
    InsertHistory(HistoryChat),
    /// Delete the chat with this id; answered by `Rows`.
    DeleteWithId(i32),
    /// Rewrite a chat's text, and its attachment unless the image stays;
    /// answered by `Rows`.
    ReWriteDesc(EditChat),
    /// Count one more flag on the chat; answered by `Rows`.
    AddFlagnum(i32),
    /// Count one flag less on the chat; answered by `Rows`.
    SubFlagnum(i32),
    /// Record who flagged; answered by `Rows`.
    WhoFlagged(FlagIp),
    /// Forget who flagged; answered by `Rows`.
    RmWhoFlagged(FlagIp),
    /// The number of flags on the chat; answered by `Number`.
    GetFlag(i32),
}

/// The reply to a query.
pub enum DbReply {
    /// No connection was had, so the query did not run.
    NoConnection,
    /// The query ran and reported an error.
    Failed,
    Ip(DoneIp),
    Shows(Vec<Show>),
    Makers(Vec<String>),
    Chats(Vec<Chat>),
    /// The rows a statement changed, or a select found.
    Rows(usize),
    Chat(Chat),
    Number(i32),
    Secret(String),
}

/// What a machine wants next: a query run, or to finish with a result.
pub enum Next<T> {
    Run(DbAction),
    Done(Result<T, Failure>),
}

/// The answer to a page visit: the id of the visitor's address, as text,
/// when the address was just recorded.
pub struct IpOut {
    pub ipid: Option<String>,
}

/// A page visit: the visitor's address when the visitor is not known yet,
/// or the id the visitor is known by.
pub struct IpIn {
    pub ipaddr: Option<String>,
    pub ident: Option<String>,
}

/// Where a visit stands.
pub enum IpStage {
    /// Waiting for the recorded address.
    AwaitIp,
}

/// A visit in progress.
pub struct IpRun {
    pub stage: IpStage,
}

impl IpIn {
    /// Starts the visit: a known visitor needs nothing; an unknown one with an
    /// address has it recorded; without either nothing is done.
    pub fn start(self) -> (r: (IpRun, Next<IpOut>))
        ensures
            self.ident is Some ==> r.1 == Next::<IpOut>::Done(Ok(IpOut { ipid: None })),
            self.ident is None ==> match self.ipaddr {
                Some(a) => r.1 == Next::<IpOut>::Run(DbAction::UpsertIp(NewIp { ipaddr: a })),
                None => r.1 == Next::<IpOut>::Done(Ok(IpOut { ipid: None })),
            },
    {
        let run = IpRun { stage: IpStage::AwaitIp };
        match self.ident {
            Some(_) => (run, Next::Done(Ok(IpOut { ipid: None }))),
            None => match self.ipaddr {
                Some(a) => (run, Next::Run(DbAction::UpsertIp(NewIp { ipaddr: a }))),
                None => (run, Next::Done(Ok(IpOut { ipid: None }))),
            },
        }
    }
}

impl IpRun {
    /// Takes the recorded address: the visitor is to remember its id, as
    /// decimal text. A failed upsert is left out: the visit cannot go on
    /// without an id.
    pub fn step(self, reply: DbReply) -> (r: (IpRun, Next<IpOut>))
        requires
            reply is Ip || reply is NoConnection,
        ensures
            reply matches DbReply::Ip(d) ==> (r.1 matches Next::Done(Ok(o)) && o.ipid matches Some(
                t,
            ) && t@ == decimal_text(d.id as int)),
            reply is NoConnection ==> r.1 == Next::<IpOut>::Done(Err(Failure::Connection)),
    {
        match reply {
            DbReply::Ip(d) => (self, Next::Done(Ok(IpOut { ipid: Some(i32_text(d.id)) }))),
            _ => (self, Next::Done(Err(Failure::Connection))),
        }
    }
}

} // verus!
