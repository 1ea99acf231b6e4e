//! The bot's state: score drafts, locked predictions, open polls and points.

use std::collections::{HashMap, HashSet};
use vstd::prelude::*;

verus! {

broadcast use vstd::std_specs::hash::group_hash_axioms;

/// A score that a user is composing for one match, one team at a time.
#[derive(Clone, Copy, Debug)]
pub struct UserPrediction {
    pub goals_for_team_a: Option<u8>,
    pub goals_for_team_b: Option<u8>,
}

impl Default for UserPrediction {
    fn default() -> (r: Self)
        ensures
            r == empty_draft(),
    {
        UserPrediction { goals_for_team_a: None, goals_for_team_b: None }
    }
}

/// A draft with no team's score chosen yet.
pub open spec fn empty_draft() -> UserPrediction {
    UserPrediction { goals_for_team_a: None, goals_for_team_b: None }
}

/// A prediction that a user has locked in for a match.
#[derive(Clone, Copy, Debug)]
pub struct FinalPrediction {
    pub user: u64,
    pub team_a: u8,
    pub team_b: u8,
}

/// An open poll: the match kicks off at `start_time`, in whole seconds since
/// the Unix epoch (UTC).
#[derive(Clone, Copy, Debug)]
pub struct PollInfo {
    pub start_time: i64,
}

/// An instant: whole seconds since the Unix epoch (UTC) and the nanoseconds
/// past that second.
#[derive(Clone, Copy, Debug)]
pub struct Moment {
    pub secs: i64,
    pub nanos: u32,
}

impl Moment {
    /// Whether this instant lies strictly after the whole second `start`.
    pub open spec fn is_after(self, start: i64) -> bool {
        self.secs > start || (self.secs == start && self.nanos > 0)
    }

    /// Whether this instant is no later than `other`.
    pub open spec fn not_later_than(self, other: Moment) -> bool {
        self.secs < other.secs || (self.secs == other.secs && self.nanos <= other.nanos)
    }

    pub fn after(&self, start: i64) -> (r: bool)
        ensures
            r == self.is_after(start),
    {
        self.secs > start || (self.secs == start && self.nanos > 0)
    }
}

/// The state of all polls.
pub struct Data {
    /// Per poll message, per user: the score being composed.
    pub drafts: HashMap<u64, HashMap<u64, UserPrediction>>,
    /// Per poll message: the locked predictions, in the order they were locked.
    pub finalized: HashMap<u64, Vec<FinalPrediction>>,
    /// Per poll message: the open poll.
    pub active_polls: HashMap<u64, PollInfo>,
    /// Per user: the points won so far.
    pub user_points: HashMap<u64, u32>,
    /// The poll messages that have been closed with a final score.
    pub closed_polls: HashSet<u64>,
}

/// The abstract state of all polls.
#[verifier::ext_equal]
pub struct PollState {
    pub drafts: Map<u64, Map<u64, UserPrediction>>,
    pub finalized: Map<u64, Seq<FinalPrediction>>,
    pub active_polls: Map<u64, PollInfo>,
    pub user_points: Map<u64, u32>,
    pub closed_polls: Set<u64>,
}

impl View for Data {
    type V = PollState;

    open spec fn view(&self) -> PollState {
        PollState {
            drafts: Map::new(
                |k: u64| self.drafts@.contains_key(k),
                |k: u64| self.drafts@[k]@,
            ),
            finalized: Map::new(
                |k: u64| self.finalized@.contains_key(k),
                |k: u64| self.finalized@[k]@,
            ),
            active_polls: self.active_polls@,
            user_points: self.user_points@,
            closed_polls: self.closed_polls@,
        }
    }
}

impl PollState {
    /// The state with no polls, drafts, predictions or points.
    pub open spec fn empty() -> PollState {
        PollState {
            drafts: Map::empty(),
            finalized: Map::empty(),
            active_polls: Map::empty(),
            user_points: Map::empty(),
            closed_polls: Set::empty(),
        }
    }

    /// The draft of `user` for the poll `msg` (an empty draft if there is none).
    pub open spec fn draft(self, msg: u64, user: u64) -> UserPrediction {
        if self.drafts.contains_key(msg) && self.drafts[msg].contains_key(user) {
            self.drafts[msg][user]
        } else {
            empty_draft()
        }
    }

    /// The drafts of the poll `msg` (none if it has no entry).
    pub open spec fn drafts_of(self, msg: u64) -> Map<u64, UserPrediction> {
        if self.drafts.contains_key(msg) {
            self.drafts[msg]
        } else {
            Map::empty()
        }
    }

    /// This state with the draft of `user` for the poll `msg` set to `d`.
    pub open spec fn with_draft(self, msg: u64, user: u64, d: UserPrediction) -> PollState {
        PollState {
            drafts: self.drafts.insert(msg, self.drafts_of(msg).insert(user, d)),
            finalized: self.finalized,
            active_polls: self.active_polls,
            user_points: self.user_points,
            closed_polls: self.closed_polls,
        }
    }

    /// The predictions locked for the poll `msg`, in order (none if it has no entry).
    pub open spec fn predictions(self, msg: u64) -> Seq<FinalPrediction> {
        if self.finalized.contains_key(msg) {
            self.finalized[msg]
        } else {
            Seq::empty()
        }
    }

    /// Whether `user` has locked a prediction for the poll `msg`.
    pub open spec fn has_voted(self, msg: u64, user: u64) -> bool {
        exists|i: int| 0 <= i < self.predictions(msg).len() && #[trigger] self.predictions(msg)[i].user == user
    }

    /// This state with `p` appended to the predictions of the poll `msg`.
    pub open spec fn with_prediction(self, msg: u64, p: FinalPrediction) -> PollState {
        PollState {
            drafts: self.drafts,
            finalized: self.finalized.insert(msg, self.predictions(msg).push(p)),
            active_polls: self.active_polls,
            user_points: self.user_points,
            closed_polls: self.closed_polls,
        }
    }

    /// This state with the poll `msg` opened, kicking off at `start_time`.
    pub open spec fn with_poll(self, msg: u64, start_time: i64) -> PollState {
        PollState {
            drafts: self.drafts,
            finalized: self.finalized,
            active_polls: self.active_polls.insert(msg, PollInfo { start_time }),
            user_points: self.user_points,
            closed_polls: self.closed_polls,
        }
    }

    /// Whether predictions for the poll `msg` are locked at `now`: the poll
    /// has been closed, or it is open and `now` lies after its kickoff.
    pub open spec fn is_locked(self, msg: u64, now: Moment) -> bool {
        ||| self.closed_polls.contains(msg)
        ||| self.active_polls.contains_key(msg) && now.is_after(self.active_polls[msg].start_time)
    }
}

impl Data {
    /// A state with no polls.
    pub fn new() -> (r: Data)
        ensures
            r@ == PollState::empty(),
    {
        let r = Data {
            drafts: HashMap::new(),
            finalized: HashMap::new(),
            active_polls: HashMap::new(),
            user_points: HashMap::new(),
            closed_polls: HashSet::new(),
        };
        assert(r@.drafts =~= Map::empty());
        assert(r@.finalized =~= Map::empty());
        r
    }

    /// Opens the poll posted as message `message_id`, kicking off at `start_time`.
    pub fn open_poll(&mut self, message_id: u64, start_time: i64)
        ensures
            final(self)@ == old(self)@.with_poll(message_id, start_time),
    {
        self.active_polls.insert(message_id, PollInfo { start_time });
        assert(self@.drafts =~= old(self)@.drafts);
        assert(self@.finalized =~= old(self)@.finalized);
    }

    /// The draft of `user` for the poll `msg`.
    pub fn draft(&self, msg: u64, user: u64) -> (r: UserPrediction)
        ensures
            r == self@.draft(msg, user),
    {
        match self.drafts.get(&msg) {
            Some(m) => match m.get(&user) {
                Some(d) => *d,
                None => UserPrediction::default(),
            },
            None => UserPrediction::default(),
        }
    }

    /// Sets the draft of `user` for the poll `msg` to `d`.
    pub fn set_draft(&mut self, msg: u64, user: u64, d: UserPrediction)
        ensures
            final(self)@ == old(self)@.with_draft(msg, user, d),
    {
        let mut inner = match self.drafts.remove(&msg) {
            Some(m) => m,
            None => HashMap::new(),
        };
        assert(inner@ == old(self)@.drafts_of(msg));
        inner.insert(user, d);
        self.drafts.insert(msg, inner);
        assert(self@.drafts =~= old(self)@.with_draft(msg, user, d).drafts);
        assert(self@.finalized =~= old(self)@.finalized);
    }

    /// Whether `user` has locked a prediction for the poll `msg`.
    pub fn has_voted(&self, msg: u64, user: u64) -> (r: bool)
        ensures
            r == self@.has_voted(msg, user),
    {
        match self.finalized.get(&msg) {
            Some(list) => {
                let ghost preds = self@.predictions(msg);
                assert(preds == list@);
                let mut i: usize = 0;
                while i < list.len()
                    invariant
                        preds == list@,
                        preds == self@.predictions(msg),
                        i <= list.len(),
                        forall|j: int| 0 <= j < i ==> (#[trigger] preds[j]).user != user,
                    decreases list.len() - i,
                {
                    if list[i].user == user {
                        assert(self@.predictions(msg)[i as int].user == user);
                        return true;
                    }
                    i = i + 1;
                }
                false
            },
            None => false,
        }
    }

    /// Appends `p` to the predictions of the poll `msg`.
    pub fn push_prediction(&mut self, msg: u64, p: FinalPrediction)
        ensures
            final(self)@ == old(self)@.with_prediction(msg, p),
    {
        let mut list = match self.finalized.remove(&msg) {
            Some(l) => l,
            None => Vec::new(),
        };
        assert(list@ == old(self)@.predictions(msg));
        list.push(p);
        self.finalized.insert(msg, list);
        assert(self@.finalized =~= old(self)@.with_prediction(msg, p).finalized);
        assert(self@.drafts =~= old(self)@.drafts);
    }
}

} // verus!
