//! The chat requests: what a visitor posts, edits and asks for, and the
//! answers the board gives.

use vstd::prelude::*;
use crate::session::UpLoaded;
use crate::talk::db::{attached_text, CreateChat, DeleteChat, ToggleChat};
use crate::talk::model::{Chat, EditChat};
use crate::text::{
    decimal_text, i32_or_zero, i32_text, opt_text, parse_i32, parse_i32_or_zero, parsed_integer,
    text_is, trim_text, trimmed,
};

verus! {

/// A chat as a visitor posts it: the thread it answers (`none` for a new
/// thread), how it is illustrated (`1` the uploaded file, `2` the link),
/// its secret, its author, its link and its text.
pub struct CreateJ {
    pub inheritedid: String,
    pub hasimg: String,
    pub secret: String,
    pub whosent: String,
    pub linky: String,
    pub description: String,
}

/// The answer to a post: the stored chat's numbers as text, when it was
/// posted and its attachment (`none` without one).
pub struct TempJ {
    pub id: String,
    pub rootnum: String,
    pub replnum: String,
    pub posted: String,
    pub attached: String,
}

/// An action on a chat: `put` checks the password, `delete` deletes.
pub struct PassdJ {
    pub taskid: String,
    pub method: String,
    pub passwd: String,
}

/// The chat an edit or a flag is about.
pub struct UpdateParams {
    pub id: i32,
}

/// An edit: how it is illustrated (`1` the uploaded file, `2` the link, `4`
/// the same image as before), the link and the new text.
pub struct EditJ {
    pub hasimg: String,
    pub linky: String,
    pub description: String,
}

/// A flag's direction: `-` takes a flag off.
pub struct FlagJ {
    pub dir: String,
}

/// The state a chat action answers with.
pub struct OutJ {
    pub state: String,
}

/// The attachment an illustration code gives: the uploaded file for `1`,
/// the link for `2`, none otherwise.
pub open spec fn chosen_link(code: int, link: Seq<char>, uploaded: Option<UpLoaded>) -> Option<Seq<char>> {
    if code == 1 {
        match uploaded {
            Some(u) => Some(u.uploaded@),
            None => None,
        }
    } else if code == 2 {
        Some(link)
    } else {
        None
    }
}

/// Whether an illustration code takes the uploaded file, which is then
/// taken out of the session.
pub fn uses_upload(hasimg: &str) -> (b: bool)
    ensures
        b == (i32_or_zero(hasimg@) == 1),
{
    parse_i32_or_zero(hasimg) == 1
}

fn link_for(code: i32, link: &String, uploaded: Option<UpLoaded>) -> (r: Option<String>)
    ensures
        opt_text(r) == chosen_link(code as int, link@, uploaded),
{
    if code == 1 {
        match uploaded {
            Some(u) => Some(u.uploaded),
            None => None,
        }
    } else if code == 2 {
        Some(link.clone())
    } else {
        None
    }
}

/// The thread a post answers: none for `none`, otherwise the number the text
/// reads as, zero when it reads as none.
pub open spec fn answered_thread(t: Seq<char>) -> Option<int> {
    if t == "none"@ {
        None
    } else {
        Some(i32_or_zero(t))
    }
}

/// The post to make from what the visitor sent, from the connection's
/// address, and from the uploaded file when the illustration code takes it.
pub fn create_request(j: CreateJ, ip: String, uploaded: Option<UpLoaded>) -> (r: CreateChat)
    ensures
        r.ip == ip,
        opt_text(r.linky) == chosen_link(i32_or_zero(j.hasimg@), j.linky@, uploaded),
        match answered_thread(j.inheritedid@) {
            Some(t) => r.inheritedid == Some(t as i32),
            None => r.inheritedid is None,
        },
        r.secret == j.secret,
        r.whosent == j.whosent,
        r.description@ == trimmed(j.description@),
{
    let code = parse_i32_or_zero(j.hasimg.as_str());
    let linky = link_for(code, &j.linky, uploaded);
    let inheritedid = if text_is(&j.inheritedid, "none") {
        None
    } else {
        Some(parse_i32_or_zero(j.inheritedid.as_str()))
    };
    let description = trim_text(j.description.as_str());
    CreateChat { inheritedid, secret: j.secret, whosent: j.whosent, ip, linky, description }
}

/// The answer to a post.
pub fn created_reply(t: &Chat) -> (r: TempJ)
    ensures
        r.id@ == decimal_text(t.id as int),
        r.rootnum@ == decimal_text(t.rootnum as int),
        r.replnum@ == decimal_text(t.replnum as int),
        r.posted@ == t.timeposted.shown(),
        r.attached@ == attached_text(t.attached),
{
    let attached = match &t.attached {
        Some(link) => link.clone(),
        None => "none".to_owned(),
    };
    TempJ {
        id: i32_text(t.id),
        rootnum: i32_text(t.rootnum),
        replnum: i32_text(t.replnum),
        posted: t.timeposted.text(),
        attached,
    }
}

/// What a chat action does.
pub enum PassdPlan {
    /// Check the password.
    Toggle(ToggleChat),
    /// Delete the chat.
    Delete(DeleteChat),
    /// Nothing; the answer is empty.
    Nothing,
}

/// The action a visitor asks for. A chat number that reads as no `i32` is
/// left out.
pub fn passd_plan(j: PassdJ) -> (r: PassdPlan)
    requires
        parsed_integer(j.taskid@, i32::MIN as int, i32::MAX as int) is Some,
    ensures
        ({
            let id = parsed_integer(j.taskid@, i32::MIN as int, i32::MAX as int)->0;
            if j.method@ == "put"@ {
                r matches PassdPlan::Toggle(t) && t.id == id && t.pw == j.passwd
            } else if j.method@ == "delete"@ {
                r matches PassdPlan::Delete(d) && d.id == id && d.pw == j.passwd
            } else {
                r is Nothing
            }
        }),
{
    let id = match parse_i32(j.taskid.as_str()) {
        Some(v) => v,
        None => 0,
    };
    if text_is(&j.method, "put") {
        PassdPlan::Toggle(ToggleChat { id, pw: j.passwd })
    } else if text_is(&j.method, "delete") {
        PassdPlan::Delete(DeleteChat { id, pw: j.passwd })
    } else {
        PassdPlan::Nothing
    }
}

/// The answer to a password check: `wrong` for zero, `correct` otherwise.
pub fn toggle_reply(result: i32) -> (r: OutJ)
    ensures
        r.state@ == (if result == 0 { "wrong"@ } else { "correct"@ }),
{
    if result == 0 {
        OutJ { state: "wrong".to_owned() }
    } else {
        OutJ { state: "correct".to_owned() }
    }
}

/// The answer to a deletion: `wrong` when nothing was deleted, `deleted`
/// otherwise.
pub fn delete_reply(deleted: usize) -> (r: OutJ)
    ensures
        r.state@ == (if deleted == 0 { "wrong"@ } else { "deleted"@ }),
{
    if deleted == 0 {
        OutJ { state: "wrong".to_owned() }
    } else {
        OutJ { state: "deleted".to_owned() }
    }
}

/// The answer to a flag: the chat's flag count as text.
pub fn flag_reply(count: i32) -> (r: OutJ)
    ensures
        r.state@ == decimal_text(count as int),
{
    OutJ { state: i32_text(count) }
}

/// The edit to make of chat `id` from what the visitor sent, and from the
/// uploaded file when the illustration code takes it. Code `4` keeps the
/// image as it is.
pub fn edit_request(id: i32, j: EditJ, uploaded: Option<UpLoaded>) -> (r: EditChat)
    ensures
        r.id == id,
        opt_text(r.linky) == chosen_link(i32_or_zero(j.hasimg@), j.linky@, uploaded),
        r.desc@ == trimmed(j.description@),
        r.sameimg == (i32_or_zero(j.hasimg@) == 4),
{
    let code = parse_i32_or_zero(j.hasimg.as_str());
    let linky = link_for(code, &j.linky, uploaded);
    let desc = trim_text(j.description.as_str());
    EditChat { id, linky, desc, sameimg: code == 4 }
}

/// The answer to an edit: `same` when the image stays, otherwise the new
/// attachment, or `none`.
pub fn edit_reply(edit: &EditChat) -> (r: OutJ)
    ensures
        r.state@ == (if edit.sameimg { "same"@ } else { attached_text(edit.linky) }),
{
    if edit.sameimg {
        OutJ { state: "same".to_owned() }
    } else {
        match &edit.linky {
            Some(word) => OutJ { state: word.clone() },
            None => OutJ { state: "none".to_owned() },
        }
    }
}

} // verus!
