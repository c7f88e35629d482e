//! Chat rows and what the board writes about them.

use vstd::prelude::*;
use crate::text::opt_text;
use crate::time::PostedAt;

verus! {

/// A chat to insert.
pub struct NewChat {
    pub ipid: i32,
    pub whosent: String,
    pub attached: Option<String>,
    pub description: String,
}

/// The secret that guards a chat.
pub struct NewSecret {
    pub secret: String,
    pub chatid: i32,
}

/// A chat of the board. A chat that starts a thread has `rootnum` equal to its
/// own id; a reply has its thread's `rootnum` and a `replnum` counting the
/// replies of the thread.
pub struct Chat {
    pub id: i32,
    pub ipid: i32,
    pub rootnum: i32,
    pub replnum: i32,
    pub timeposted: PostedAt,
    pub whosent: String,
    pub flag: i32,
    pub attached: Option<String>,
    pub description: String,
}

/// What a chat looked like before it was edited or deleted.
pub struct HistoryChat {
    pub chatid: i32,
    pub ipid: i32,
    pub whathappened: String,
    pub rootnum: i32,
    pub replnum: i32,
    pub timeposted: PostedAt,
    pub whosent: String,
    pub flag: i32,
    pub attached: Option<String>,
    pub description: String,
}

/// A new text for a chat, and a new attachment unless `sameimg`.
pub struct EditChat {
    pub id: i32,
    pub linky: Option<String>,
    pub desc: String,
    pub sameimg: bool,
}

/// That the address `ipid` flagged the chat `chatid`.
pub struct FlagIp {
    pub ipid: i32,
    pub chatid: i32,
}

/// A recorded flag.
pub struct CFlag {
    pub id: i32,
    pub ipid: i32,
    pub chatid: i32,
    pub timeflagged: PostedAt,
}

/// The history entry for `chat` under the label `what`: the chat's fields,
/// moved over unchanged.
pub open spec fn history_of(chat: Chat, what: Seq<char>, h: HistoryChat) -> bool {
    &&& h.chatid == chat.id
    &&& h.ipid == chat.ipid
    &&& h.whathappened@ == what
    &&& h.rootnum == chat.rootnum
    &&& h.replnum == chat.replnum
    &&& h.timeposted == chat.timeposted
    &&& h.whosent == chat.whosent
    &&& h.flag == chat.flag
    &&& h.attached == chat.attached
    &&& h.description == chat.description
}

/// The history entry for `chat` labelled `what`.
pub fn history_entry(chat: Chat, what: &str) -> (h: HistoryChat)
    ensures
        history_of(chat, what@, h),
{
    HistoryChat {
        chatid: chat.id,
        ipid: chat.ipid,
        whathappened: what.to_owned(),
        rootnum: chat.rootnum,
        replnum: chat.replnum,
        timeposted: chat.timeposted,
        whosent: chat.whosent,
        flag: chat.flag,
        attached: chat.attached,
        description: chat.description,
    }
}

/// The columns `re_write_desc` sets: the text, and the attachment too unless
/// the edit keeps the same image.
pub struct ChatRewrite {
    pub description: String,
    pub attached: Option<Option<String>>,
}

impl Chat {
    /// The columns an edit rewrites.
    pub fn re_write_desc(edit: &EditChat) -> (r: ChatRewrite)
        ensures
            r.description@ == edit.desc@,
            edit.sameimg ==> r.attached is None,
            !edit.sameimg ==> (r.attached matches Some(a) && opt_text(a) == opt_text(edit.linky)),
    {
        if edit.sameimg {
            ChatRewrite { description: edit.desc.clone(), attached: None }
        } else {
            let attached = match &edit.linky {
                Some(l) => Some(l.clone()),
                None => None,
            };
            ChatRewrite { description: edit.desc.clone(), attached: Some(attached) }
        }
    }
}

} // verus!
