//! The show catalogue's conversations with the database.

use vstd::prelude::*;
use crate::db::{DbAction, DbReply, Failure, Next};
use crate::show::model::{retrieve_plan_spec, AllShows, Show, ShowOrder};

verus! {

/// A show with the names of its makers.
pub struct OneShowOut {
    pub makers: Vec<String>,
    pub oneshow: Show,
}

/// The six shows of the taste page, for the visitor with address id `ipid`.
pub struct TastSixIn {
    pub ipid: i32,
}

/// The shows of the explore page, for the visitor with address id `ipid`.
pub struct ExplSqlIn {
    pub ipid: i32,
    pub categories: Vec<u8>,
    pub sort: u8,
    pub media: Option<u8>,
}

/// Where listing shows stands.
pub enum ListStage {
    /// Waiting for the shows; a failed load fails with `failure`.
    AwaitShows { failure: Failure },
    /// Waiting for the makers of the first pending show.
    AwaitMakers { pending: Vec<Show>, done: Vec<OneShowOut> },
}

/// Listing shows in progress.
pub struct ListRun {
    pub stage: ListStage,
}

impl TastSixIn {
    /// Starts by loading the taste page's shows.
    pub fn start(self) -> (r: (ListRun, Next<Vec<OneShowOut>>))
        ensures
            r.0.stage == (ListStage::AwaitShows { failure: Failure::ReadingSix }),
            r.1 matches Next::Run(DbAction::LoadShows(q)) && q.categories is Every && q.media is None
                && q.current_only && q.order == ShowOrder::PopularDescIdDesc && q.limit == Some(6i64),
    {
        (ListRun { stage: ListStage::AwaitShows { failure: Failure::ReadingSix } }, Next::Run(DbAction::LoadShows(Show::tasteshows())))
    }
}

impl ExplSqlIn {
    /// Starts by loading the shows the explore page asks for.
    pub fn start(self) -> (r: (ListRun, Next<Vec<OneShowOut>>))
        ensures
            r.0.stage == (ListStage::AwaitShows { failure: Failure::ReadingSql }),
            r.1 matches Next::Run(DbAction::LoadShows(q)) && retrieve_plan_spec(
                AllShows { categories: self.categories, sort: self.sort, media: self.media },
                q,
            ),
    {
        let ask = AllShows { categories: self.categories, sort: self.sort, media: self.media };
        let q = Show::retrieveshows(&ask);
        (ListRun { stage: ListStage::AwaitShows { failure: Failure::ReadingSql } }, Next::Run(DbAction::LoadShows(q)))
    }
}

impl ListRun {
    /// The replies the run can take now; a failed makers lookup is left out,
    /// as the listing cannot go on without the makers.
    pub open spec fn expects(self, reply: DbReply) -> bool {
        match self.stage {
            ListStage::AwaitShows { .. } => reply is NoConnection || reply is Failed || reply is Shows,
            ListStage::AwaitMakers { pending, .. } => pending@.len() > 0 && (reply is NoConnection
                || reply is Makers),
        }
    }

    /// Takes a reply: the shows loaded are paired, in order, each with the
    /// makers found for it.
    pub fn step(self, reply: DbReply) -> (r: (ListRun, Next<Vec<OneShowOut>>))
        requires
            self.expects(reply),
        ensures
            reply is NoConnection ==> r.1 == Next::<Vec<OneShowOut>>::Done(Err(Failure::Connection)),
            self.stage matches ListStage::AwaitShows { failure } ==> (reply is Failed ==> r.1
                == Next::<Vec<OneShowOut>>::Done(Err(failure))),
            self.stage is AwaitShows ==> (reply matches DbReply::Shows(v) ==> if v@.len() == 0 {
                r.1 matches Next::Done(Ok(outs)) && outs@.len() == 0
            } else {
                r.1 == Next::<Vec<OneShowOut>>::Run(DbAction::GetMakers(v@[0].id)) && (r.0.stage matches ListStage::AwaitMakers {
                    pending,
                    done,
                } && pending@ == v@ && done@.len() == 0)
            }),
            self.stage matches ListStage::AwaitMakers { pending, done } ==> (reply matches DbReply::Makers(
                names,
            ) ==> {
                let listed = done@.push(OneShowOut { makers: names, oneshow: pending@[0] });
                let rest = pending@.drop_first();
                if rest.len() == 0 {
                    r.1 matches Next::Done(Ok(outs)) && outs@ == listed
                } else {
                    r.1 == Next::<Vec<OneShowOut>>::Run(DbAction::GetMakers(rest[0].id)) && (r.0.stage matches ListStage::AwaitMakers {
                        pending: p2,
                        done: d2,
                    } && p2@ == rest && d2@ == listed)
                }
            }),
    {
        match reply {
            DbReply::NoConnection => (self, Next::Done(Err(Failure::Connection))),
            _ => match self.stage {
                ListStage::AwaitShows { failure } => match reply {
                    DbReply::Shows(v) => {
                        if v.len() == 0 {
                            (ListRun { stage: ListStage::AwaitShows { failure } }, Next::Done(Ok(Vec::new())))
                        } else {
                            let first = v[0].id;
                            (ListRun { stage: ListStage::AwaitMakers { pending: v, done: Vec::new() } }, Next::Run(DbAction::GetMakers(first)))
                        }
                    },
                    _ => (ListRun { stage: ListStage::AwaitShows { failure: Failure::Connection } }, Next::Done(Err(failure))),
                },
                ListStage::AwaitMakers { pending, done } => match reply {
                    DbReply::Makers(names) => {
                        let mut pending = pending;
                        let mut done = done;
                        let show = pending.remove(0);
                        done.push(OneShowOut { makers: names, oneshow: show });
                        if pending.len() == 0 {
                            (ListRun { stage: ListStage::AwaitShows { failure: Failure::Connection } }, Next::Done(Ok(done)))
                        } else {
                            let next = pending[0].id;
                            (ListRun { stage: ListStage::AwaitMakers { pending, done } }, Next::Run(DbAction::GetMakers(next)))
                        }
                    },
                    _ => (ListRun { stage: ListStage::AwaitMakers { pending, done } }, Next::Done(Err(Failure::Connection))),
                },
            },
        }
    }
}

} // verus!
