use lykrysh::db::{DbAction, DbReply, Failure, IpIn, Next};
use lykrysh::model::DoneIp;
use lykrysh::session::UpLoaded;
use lykrysh::talk::api::{
    create_request, created_reply, delete_reply, edit_reply, edit_request, flag_reply, passd_plan,
    toggle_reply, uses_upload, CreateJ, EditJ, PassdJ, PassdPlan,
};
use lykrysh::talk::db::{
    chat_outs, ChatsIn, CreateChat, DeleteChat, FlagChat, ReadChats, ToggleChat,
};
use lykrysh::talk::model::{Chat, EditChat};
use lykrysh::time::PostedAt;

fn moment() -> PostedAt {
    PostedAt::from_timestamp(1431648000, 0).unwrap()
}

fn chat(id: i32, rootnum: i32, flag: i32) -> Chat {
    Chat {
        id,
        ipid: 3,
        rootnum,
        replnum: 0,
        timeposted: moment(),
        whosent: "ann".to_string(),
        flag,
        attached: None,
        description: format!("chat {}", id),
    }
}

fn done_ip(id: i32) -> DoneIp {
    DoneIp { id, ipaddr: "1.2.3.4".to_string(), timefirst: moment(), timelast: moment() }
}

#[test]
fn chats_as_sent() {
    let mut rows = vec![chat(10, 10, 0), chat(11, 10, 2), chat(7, 7, 0)];
    rows[1].attached = Some("pic.png".to_string());
    let outs = chat_outs(&rows, &vec![false, true, false]);
    assert_eq!(outs.len(), 3);
    assert!(!outs[0].isrep && outs[1].isrep && !outs[2].isrep);
    assert_eq!(outs[0].attached, "none");
    assert_eq!(outs[1].attached, "pic.png");
    assert_eq!(outs[0].posted, "2015-05-15");
    assert!(outs[1].youflagged && !outs[0].youflagged);
    assert_eq!(outs[2].description, "chat 7");
    assert_eq!(outs[1].whosent, "ann");
}

#[test]
fn a_first_chat_of_thread_zero_counts_as_reply() {
    let outs = chat_outs(&vec![chat(0, 0, 0)], &vec![false]);
    assert!(outs[0].isrep);
}

#[test]
fn reading_asks_only_about_flagged_chats() {
    let (run, next) = ReadChats { offset: 5, ipid: 8 }.start();
    assert!(matches!(next, Next::Run(DbAction::ReadChats(5))));
    let rows = vec![chat(1, 1, 0), chat(2, 1, 3), chat(3, 3, 0), chat(4, 4, 1)];
    let (run, next) = run.step(DbReply::Chats(rows));
    assert!(matches!(next, Next::Run(DbAction::YouFlagged { chatid: 2, ipid: 8 })));
    let (run, next) = run.step(DbReply::Rows(1));
    assert!(matches!(next, Next::Run(DbAction::YouFlagged { chatid: 4, ipid: 8 })));
    let (_, next) = run.step(DbReply::Failed);
    match next {
        Next::Done(Ok(outs)) => {
            let marks: Vec<bool> = outs.iter().map(|o| o.youflagged).collect();
            assert_eq!(marks, vec![false, true, false, false]);
        }
        _ => panic!("expected chats"),
    }
}

#[test]
fn reading_failures() {
    let (run, _) = ReadChats { offset: 0, ipid: 0 }.start();
    assert!(matches!(run.step(DbReply::Failed).1, Next::Done(Err(Failure::ReadingChats))));
    let (run, _) = ReadChats { offset: 0, ipid: 0 }.start();
    let (run, _) = run.step(DbReply::Chats(vec![chat(1, 1, 1)]));
    assert!(matches!(run.step(DbReply::NoConnection).1, Next::Done(Err(Failure::Connection))));
    let (run, _) = ReadChats { offset: 0, ipid: 0 }.start();
    match run.step(DbReply::Chats(vec![])).1 {
        Next::Done(Ok(outs)) => assert!(outs.is_empty()),
        _ => panic!("expected no chats"),
    }
}

#[test]
fn talk_page_records_new_visitors() {
    let (run, next) = ChatsIn { ipaddr: Some("5.6.7.8".to_string()), ident: None }.start();
    assert!(matches!(next, Next::Run(DbAction::UpsertIp(_))));
    let (run, next) = run.step(DbReply::Ip(done_ip(42)));
    assert!(matches!(next, Next::Run(DbAction::ReadChats(0))));
    let (run, next) = run.step(DbReply::Chats(vec![chat(1, 1, 2)]));
    assert!(matches!(next, Next::Run(DbAction::YouFlagged { chatid: 1, ipid: 42 })));
    match run.step(DbReply::Rows(0)).1 {
        Next::Done(Ok(out)) => {
            assert_eq!(out.ipid.as_deref(), Some("42"));
            assert_eq!(out.res.len(), 1);
            assert!(!out.res[0].youflagged);
        }
        _ => panic!("expected chats"),
    }
}

#[test]
fn talk_page_for_known_visitors_survives_a_failed_read() {
    let (run, next) = ChatsIn { ipaddr: None, ident: Some("17".to_string()) }.start();
    assert!(matches!(next, Next::Run(DbAction::ReadChats(0))));
    match run.step(DbReply::Failed).1 {
        Next::Done(Ok(out)) => {
            assert!(out.ipid.is_none());
            assert!(out.res.is_empty());
        }
        _ => panic!("expected an empty page"),
    }
}

#[test]
fn page_visits() {
    let (_, next) = IpIn { ipaddr: None, ident: Some("3".to_string()) }.start();
    assert!(matches!(next, Next::Done(Ok(ref o)) if o.ipid.is_none()));
    let (run, next) = IpIn { ipaddr: Some("9.9.9.9".to_string()), ident: None }.start();
    assert!(matches!(next, Next::Run(DbAction::UpsertIp(ref n)) if n.ipaddr == "9.9.9.9"));
    match run.step(DbReply::Ip(done_ip(-12))).1 {
        Next::Done(Ok(o)) => assert_eq!(o.ipid.as_deref(), Some("-12")),
        _ => panic!("expected an id"),
    }
    let (_, next) = IpIn { ipaddr: None, ident: None }.start();
    assert!(matches!(next, Next::Done(Ok(ref o)) if o.ipid.is_none()));
}

fn new_chat(parent: Option<i32>) -> CreateChat {
    CreateChat {
        inheritedid: parent,
        secret: "s3cret".to_string(),
        whosent: "bob".to_string(),
        ip: "4.4.4.4".to_string(),
        linky: Some("l".to_string()),
        description: "hello".to_string(),
    }
}

#[test]
fn a_new_thread_roots_at_itself() {
    let (run, next) = new_chat(None).start();
    assert!(matches!(next, Next::Run(DbAction::UpsertIp(ref n)) if n.ipaddr == "4.4.4.4"));
    let (run, next) = run.step(DbReply::Failed);
    match &next {
        Next::Run(DbAction::InsertChat(c)) => {
            assert_eq!(c.ipid, 0);
            assert_eq!(c.whosent, "bob");
            assert_eq!(c.attached.as_deref(), Some("l"));
        }
        _ => panic!("expected an insert"),
    }
    let (run, next) = run.step(DbReply::Chat(chat(30, 0, 0)));
    assert!(matches!(next, Next::Run(DbAction::SetAsRoot(30))));
    let (run, next) = run.step(DbReply::Rows(1));
    assert!(matches!(next, Next::Run(DbAction::InsertSecret(ref s)) if s.chatid == 30 && s.secret == "s3cret"));
    let (run, next) = run.step(DbReply::Failed);
    assert!(matches!(next, Next::Run(DbAction::GetChat(30))));
    match run.step(DbReply::Chat(chat(30, 30, 0))).1 {
        Next::Done(Ok(c)) => assert_eq!(c.rootnum, 30),
        _ => panic!("expected the chat"),
    }
}

#[test]
fn a_reply_takes_the_next_number_of_its_thread() {
    let (run, _) = new_chat(Some(7)).start();
    let (run, next) = run.step(DbReply::Ip(done_ip(5)));
    assert!(matches!(next, Next::Run(DbAction::InsertChat(ref c)) if c.ipid == 5));
    let (run, next) = run.step(DbReply::Chat(chat(31, 0, 0)));
    assert!(matches!(next, Next::Run(DbAction::GetMaxReplnum(7))));
    let (run, next) = run.step(DbReply::Number(4));
    assert!(matches!(next, Next::Run(DbAction::SetAsRepl { id: 31, parent: 7, repl: 5 })));
    let (run, _) = run.step(DbReply::Rows(1));
    let (run, _) = run.step(DbReply::Rows(1));
    assert!(matches!(run.step(DbReply::Failed).1, Next::Done(Err(Failure::SetAsRoot))));
}

#[test]
fn a_reply_without_a_known_thread_number_is_not_placed() {
    let (run, _) = new_chat(Some(7)).start();
    let (run, _) = run.step(DbReply::Ip(done_ip(5)));
    let (run, _) = run.step(DbReply::Chat(chat(31, 0, 0)));
    let (_, next) = run.step(DbReply::Failed);
    assert!(matches!(next, Next::Run(DbAction::InsertSecret(ref s)) if s.chatid == 31));
}

#[test]
fn a_failed_insert_fails_the_post() {
    let (run, _) = new_chat(None).start();
    let (run, _) = run.step(DbReply::Ip(done_ip(5)));
    assert!(matches!(run.step(DbReply::Failed).1, Next::Done(Err(Failure::Insert))));
}

#[test]
fn password_check() {
    let (run, next) = ToggleChat { id: 9, pw: "pw".to_string() }.start();
    assert!(matches!(next, Next::Run(DbAction::GetSecret(9))));
    assert!(matches!(run.step(DbReply::Secret("pw".to_string())).1, Next::Done(Ok(9))));
    let (run, _) = ToggleChat { id: 9, pw: "pw".to_string() }.start();
    assert!(matches!(run.step(DbReply::Secret("other".to_string())).1, Next::Done(Ok(0))));
    let (run, _) = ToggleChat { id: 9, pw: "pw".to_string() }.start();
    assert!(matches!(run.step(DbReply::Failed).1, Next::Done(Err(Failure::CheckingSecret))));
}

#[test]
fn a_wrong_password_deletes_nothing() {
    let (run, next) = DeleteChat { id: 9, pw: "pw".to_string() }.start();
    assert!(matches!(next, Next::Run(DbAction::GetSecret(9))));
    assert!(matches!(run.step(DbReply::Secret("nope".to_string())).1, Next::Done(Ok(0))));
}

#[test]
fn deleting_keeps_the_history() {
    let (run, _) = DeleteChat { id: 9, pw: "pw".to_string() }.start();
    let (run, next) = run.step(DbReply::Secret("pw".to_string()));
    assert!(matches!(next, Next::Run(DbAction::GetChat(9))));
    let (run, next) = run.step(DbReply::Chat(chat(9, 9, 1)));
    match &next {
        Next::Run(DbAction::InsertHistory(h)) => {
            assert_eq!(h.whathappened, "deleted");
            assert_eq!(h.chatid, 9);
            assert_eq!(h.description, "chat 9");
            assert_eq!(h.timeposted.text(), "2015-05-15 00:00:00");
        }
        _ => panic!("expected history"),
    }
    let (run, next) = run.step(DbReply::Failed);
    assert!(matches!(next, Next::Run(DbAction::DeleteWithId(9))));
    assert!(matches!(run.step(DbReply::Rows(1)).1, Next::Done(Ok(1))));
}

#[test]
fn deleting_an_unreadable_chat_and_failures() {
    let (run, _) = DeleteChat { id: 9, pw: "pw".to_string() }.start();
    let (run, _) = run.step(DbReply::Secret("pw".to_string()));
    let (run, next) = run.step(DbReply::Failed);
    assert!(matches!(next, Next::Run(DbAction::DeleteWithId(9))));
    assert!(matches!(run.step(DbReply::Failed).1, Next::Done(Err(Failure::DeletingTask))));
    let (run, _) = DeleteChat { id: 9, pw: "pw".to_string() }.start();
    assert!(matches!(run.step(DbReply::Failed).1, Next::Done(Err(Failure::CheckingSecret))));
}

#[test]
fn editing_keeps_the_history() {
    let edit = EditChat { id: 4, linky: None, desc: "new".to_string(), sameimg: true };
    let (run, next) = edit.start();
    assert!(matches!(next, Next::Run(DbAction::GetChat(4))));
    let (run, next) = run.step(DbReply::Chat(chat(4, 4, 0)));
    assert!(matches!(next, Next::Run(DbAction::InsertHistory(ref h)) if h.whathappened == "edited"));
    let (run, next) = run.step(DbReply::Rows(1));
    assert!(matches!(next, Next::Run(DbAction::ReWriteDesc(ref e)) if e.desc == "new"));
    assert!(matches!(run.step(DbReply::Rows(1)).1, Next::Done(Ok(1))));
    let edit = EditChat { id: 4, linky: None, desc: "new".to_string(), sameimg: true };
    let (run, _) = edit.start();
    let (run, next) = run.step(DbReply::Failed);
    assert!(matches!(next, Next::Run(DbAction::ReWriteDesc(_))));
    assert!(matches!(run.step(DbReply::Failed).1, Next::Done(Err(Failure::DeletingTask))));
}

#[test]
fn rewritten_columns() {
    let r = Chat::re_write_desc(&EditChat { id: 1, linky: Some("x".to_string()), desc: "d".to_string(), sameimg: true });
    assert_eq!(r.description, "d");
    assert!(r.attached.is_none());
    let r = Chat::re_write_desc(&EditChat { id: 1, linky: Some("x".to_string()), desc: "d".to_string(), sameimg: false });
    assert_eq!(r.attached, Some(Some("x".to_string())));
    let r = Chat::re_write_desc(&EditChat { id: 1, linky: None, desc: "d".to_string(), sameimg: false });
    assert_eq!(r.attached, Some(None));
}

#[test]
fn flagging_up_and_down() {
    let (run, next) = FlagChat { ip: "1.1.1.1".to_string(), chatid: 6, dir: "+".to_string() }.start();
    assert!(matches!(next, Next::Run(DbAction::UpsertIp(_))));
    let (run, next) = run.step(DbReply::Ip(done_ip(2)));
    assert!(matches!(next, Next::Run(DbAction::AddFlagnum(6))));
    let (run, next) = run.step(DbReply::Rows(1));
    assert!(matches!(next, Next::Run(DbAction::WhoFlagged(ref f)) if f.ipid == 2 && f.chatid == 6));
    let (run, next) = run.step(DbReply::Failed);
    assert!(matches!(next, Next::Run(DbAction::GetFlag(6))));
    assert!(matches!(run.step(DbReply::Number(3)).1, Next::Done(Ok(3))));

    let (run, _) = FlagChat { ip: "1.1.1.1".to_string(), chatid: 6, dir: "-".to_string() }.start();
    let (run, next) = run.step(DbReply::Failed);
    assert!(matches!(next, Next::Run(DbAction::SubFlagnum(6))));
    let (run, next) = run.step(DbReply::Rows(1));
    assert!(matches!(next, Next::Run(DbAction::RmWhoFlagged(ref f)) if f.ipid == 0));
    let (run, _) = run.step(DbReply::Rows(1));
    assert!(matches!(run.step(DbReply::Failed).1, Next::Done(Err(Failure::Flagging))));

    let (run, _) = FlagChat { ip: "1.1.1.1".to_string(), chatid: 6, dir: "-".to_string() }.start();
    let (run, _) = run.step(DbReply::Ip(done_ip(2)));
    let (_, next) = run.step(DbReply::Failed);
    assert!(matches!(next, Next::Run(DbAction::GetFlag(6))));
}

fn create_j(inherited: &str, hasimg: &str) -> CreateJ {
    CreateJ {
        inheritedid: inherited.to_string(),
        hasimg: hasimg.to_string(),
        secret: "k".to_string(),
        whosent: "eve".to_string(),
        linky: "http://x".to_string(),
        description: "  some text\n".to_string(),
    }
}

#[test]
fn posts_as_sent() {
    let c = create_request(create_j("none", "2"), "8.8.8.8".to_string(), None);
    assert!(c.inheritedid.is_none());
    assert_eq!(c.linky.as_deref(), Some("http://x"));
    assert_eq!(c.description, "some text");
    assert_eq!(c.ip, "8.8.8.8");
    assert_eq!(c.secret, "k");
    assert_eq!(c.whosent, "eve");
    assert!(uses_upload("1") && !uses_upload("2") && !uses_upload("x"));
    let c = create_request(create_j("12", "1"), String::new(), Some(UpLoaded::add("up.jpg")));
    assert_eq!(c.inheritedid, Some(12));
    assert_eq!(c.linky.as_deref(), Some("up.jpg"));
    let c = create_request(create_j("oops", "1"), String::new(), None);
    assert_eq!(c.inheritedid, Some(0));
    assert!(c.linky.is_none());
    let c = create_request(create_j("none", "0"), String::new(), None);
    assert!(c.linky.is_none());
}

#[test]
fn answer_to_a_post() {
    let mut c = chat(12, 3, 0);
    c.replnum = 2;
    let t = created_reply(&c);
    assert_eq!(t.id, "12");
    assert_eq!(t.rootnum, "3");
    assert_eq!(t.replnum, "2");
    assert_eq!(t.posted, "2015-05-15 00:00:00");
    assert_eq!(t.attached, "none");
}

#[test]
fn chat_actions() {
    let j = |m: &str| PassdJ { taskid: "15".to_string(), method: m.to_string(), passwd: "p".to_string() };
    assert!(matches!(passd_plan(j("put")), PassdPlan::Toggle(ref t) if t.id == 15 && t.pw == "p"));
    assert!(matches!(passd_plan(j("delete")), PassdPlan::Delete(ref d) if d.id == 15));
    assert!(matches!(passd_plan(j("get")), PassdPlan::Nothing));
}

#[test]
fn answers_of_chat_actions() {
    assert_eq!(toggle_reply(0).state, "wrong");
    assert_eq!(toggle_reply(5).state, "correct");
    assert_eq!(delete_reply(0).state, "wrong");
    assert_eq!(delete_reply(1).state, "deleted");
    assert_eq!(flag_reply(-1).state, "-1");
    assert_eq!(flag_reply(4).state, "4");
}

#[test]
fn edits_as_sent() {
    let j = |h: &str| EditJ { hasimg: h.to_string(), linky: "L".to_string(), description: " d ".to_string() };
    let e = edit_request(3, j("4"), None);
    assert!(e.sameimg && e.linky.is_none());
    assert_eq!(e.desc, "d");
    assert_eq!(edit_reply(&e).state, "same");
    let e = edit_request(3, j("2"), None);
    assert!(!e.sameimg);
    assert_eq!(edit_reply(&e).state, "L");
    let e = edit_request(3, j("1"), Some(UpLoaded::add("u.png")));
    assert_eq!(edit_reply(&e).state, "u.png");
    let e = edit_request(3, j("0"), None);
    assert_eq!(edit_reply(&e).state, "none");
    assert_eq!(e.id, 3);
}
