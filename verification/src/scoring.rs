//! Scoring a match once its final score is known.

use crate::text::{dec, push_dec};
use crate::types::{Data, FinalPrediction, PollState};
use vstd::prelude::*;

verus! {

broadcast use vstd::std_specs::hash::group_hash_axioms;

/// Points for predicting the exact final score.
pub const EXACT_POINTS: u32 = 3;

/// Points for predicting the right winner (or a draw) with another score.
pub const OUTCOME_POINTS: u32 = 1;

/// Color of a closed poll card.
pub const CLOSED_COLOR: u32 = 0xff0069;

/// -1, 0 or 1 as `x` is negative, zero or positive.
pub open spec fn sign(x: int) -> int {
    if x > 0 {
        1
    } else if x < 0 {
        -1
    } else {
        0
    }
}

/// Whether the score `a`-`b` and the score `c`-`d` have the same outcome:
/// the same team wins, or both are draws.
pub open spec fn same_outcome(a: int, b: int, c: int, d: int) -> bool {
    sign(a - b) == sign(c - d)
}

/// The points a prediction earns when the match ends `a`-`b`.
pub open spec fn points_for(p: FinalPrediction, a: u8, b: u8) -> nat {
    if p.team_a == a && p.team_b == b {
        EXACT_POINTS as nat
    } else if same_outcome(p.team_a as int, p.team_b as int, a as int, b as int) {
        OUTCOME_POINTS as nat
    } else {
        0
    }
}

/// The points that the predictions of `user` in `preds` earn together.
pub open spec fn total_points(preds: Seq<FinalPrediction>, user: u64, a: u8, b: u8) -> nat
    decreases preds.len(),
{
    if preds.len() == 0 {
        0
    } else {
        total_points(preds.drop_last(), user, a, b) + if preds.last().user == user {
            points_for(preds.last(), a, b)
        } else {
            0
        }
    }
}

/// The points of `user` in `m` (zero when `user` has no entry).
pub open spec fn points_of(m: Map<u64, u32>, user: u64) -> nat {
    if m.contains_key(user) {
        m[user] as nat
    } else {
        0
    }
}

/// Whether every user's points, plus what `preds` earn them, fit in a `u32`.
pub open spec fn award_fits(m: Map<u64, u32>, preds: Seq<FinalPrediction>, a: u8, b: u8) -> bool {
    forall|u: u64| #[trigger] points_of(m, u) + total_points(preds, u, a, b) <= u32::MAX
}

/// Whether `new` is `old` with the points that `preds` earn added: a user
/// has an entry if they had one or earned points, and it holds the sum.
pub open spec fn points_awarded(
    old: Map<u64, u32>,
    new: Map<u64, u32>,
    preds: Seq<FinalPrediction>,
    a: u8,
    b: u8,
) -> bool {
    &&& forall|u: u64| #[trigger] new.contains_key(u) <==> (old.contains_key(u) || total_points(preds, u, a, b) > 0)
    &&& forall|u: u64| #[trigger] new.contains_key(u) ==> new[u] == points_of(old, u) + total_points(preds, u, a, b)
}

/// Whether `new` is `old` with the points of a prefix of `preds` added,
/// the prefix that ends just before the first prediction whose points no
/// longer fit in a `u32`.
pub open spec fn stopped_at_overflow(
    old: Map<u64, u32>,
    new: Map<u64, u32>,
    preds: Seq<FinalPrediction>,
    a: u8,
    b: u8,
) -> bool {
    exists|k: int|
        0 <= k < preds.len() && award_fits(old, #[trigger] preds.take(k), a, b) && !award_fits(old, preds.take(k + 1), a, b)
            && points_awarded(old, new, preds.take(k), a, b)
}

/// The state once the poll `msg` is closed: it is no longer open, it is
/// recorded as closed, and its predictions are gone. Drafts and points are
/// untouched.
pub open spec fn closed_state(s: PollState, msg: u64) -> PollState {
    PollState {
        drafts: s.drafts,
        finalized: s.finalized.remove(msg),
        active_polls: s.active_polls.remove(msg),
        user_points: s.user_points,
        closed_polls: s.closed_polls.insert(msg),
    }
}

/// How a winner is named: mention and predicted score.
pub open spec fn winner_tag(p: FinalPrediction) -> Seq<char> {
    "<@"@ + dec(p.user as nat) + "> ("@ + dec(p.team_a as nat) + "-"@ + dec(p.team_b as nat) + ")"@
}

/// The tags of the predictions in `preds` that earn exactly `pts` points, in order.
pub open spec fn winners(preds: Seq<FinalPrediction>, a: u8, b: u8, pts: nat) -> Seq<Seq<char>>
    decreases preds.len(),
{
    if preds.len() == 0 {
        Seq::empty()
    } else {
        let w = winners(preds.drop_last(), a, b, pts);
        if points_for(preds.last(), a, b) == pts {
            w.push(winner_tag(preds.last()))
        } else {
            w
        }
    }
}

/// The items joined with `sep` between consecutive ones.
pub open spec fn join(items: Seq<Seq<char>>, sep: Seq<char>) -> Seq<char>
    decreases items.len(),
{
    if items.len() == 0 {
        Seq::empty()
    } else if items.len() == 1 {
        items[0]
    } else {
        join(items.drop_last(), sep) + sep + items.last()
    }
}

/// One section of the results message.
pub open spec fn winners_section(w: Seq<Seq<char>>) -> Seq<char> {
    if w.len() == 0 {
        "> *None* <:AHAHAHA:1517999261743054948>\n"@
    } else {
        "> "@ + join(w, ", "@) + "\n"@
    }
}

/// The results message of a match that ended `a`-`b`.
pub open spec fn results_message(preds: Seq<FinalPrediction>, a: u8, b: u8) -> Seq<char> {
    "### Match ended. Final Score: "@ + dec(a as nat) + " - "@ + dec(b as nat) + "\n\n"@
        + "Exact Score Winners:\n"@ + winners_section(winners(preds, a, b, EXACT_POINTS as nat))
        + "\nCorrect Outcome Winners:\n"@ + winners_section(winners(preds, a, b, OUTCOME_POINTS as nat))
}

/// The text of a closed poll card.
pub open spec fn closed_description(a: u8, b: u8) -> Seq<char> {
    "This poll is closed.\nFinal Score: **"@ + dec(a as nat) + "** - **"@ + dec(b as nat) + "**"@
}

/// Whether closing the poll `msg` of state `s` with the final score `a`-`b`
/// may give the state `t` and the outcome `r`: the poll is closed (see
/// [`closed_state`]) and `r` holds the closed card; with no locked
/// prediction, `r` says so and no points change; when every sum fits a `u32`, the points are awarded and `r` holds
/// the results message; otherwise `r` reports the
/// overflow, with the points awarded up to the first prediction that
/// overflows.
pub open spec fn data_settled(s: PollState, t: PollState, msg: u64, a: u8, b: u8, r: Settlement) -> bool {
    let preds = s.predictions(msg);
    let closed = closed_state(s, msg);
    &&& t.drafts == closed.drafts
    &&& t.finalized == closed.finalized
    &&& t.active_polls == closed.active_polls
    &&& t.closed_polls == closed.closed_polls
    &&& preds.len() == 0 ==> {
        &&& t.user_points == s.user_points
        &&& r matches Settlement::NoPredictions { reply, closed_title, closed_description: d, color } && {
            &&& reply@ == "No predictions were locked in for this match."@
            &&& closed_title@ == "Ended"@
            &&& d@ == closed_description(a, b)
            &&& color == CLOSED_COLOR
        }
    }
    &&& preds.len() > 0 && award_fits(s.user_points, preds, a, b) ==> {
        &&& points_awarded(s.user_points, t.user_points, preds, a, b)
        &&& r matches Settlement::Settled { reply, closed_title, closed_description: d, color } && {
            &&& reply@ == results_message(preds, a, b)
            &&& closed_title@ == "Ended"@
            &&& d@ == closed_description(a, b)
            &&& color == CLOSED_COLOR
        }
    }
    &&& preds.len() > 0 && !award_fits(s.user_points, preds, a, b) ==> {
        &&& r is PointsOverflow
        &&& stopped_at_overflow(s.user_points, t.user_points, preds, a, b)
    }
}

/// The outcome of closing a poll.
pub enum Settlement {
    /// The poll had no locked prediction: `reply` says so, and the card is
    /// rewritten with `closed_title`, `closed_description` and `color`, its
    /// menus and button removed.
    NoPredictions { reply: String, closed_title: String, closed_description: String, color: u32 },
    /// The poll was scored: `reply` lists the winners, and the card is
    /// rewritten with `closed_title`, `closed_description` and `color`, its
    /// menus and button removed.
    Settled { reply: String, closed_title: String, closed_description: String, color: u32 },
    /// Some user's points would pass `u32::MAX`.
    PointsOverflow,
}

/// The predictions of a prefix extend its total by the next one's points.
pub proof fn lemma_total_step(preds: Seq<FinalPrediction>, i: int, user: u64, a: u8, b: u8)
    requires
        0 <= i < preds.len(),
    ensures
        total_points(preds.take(i + 1), user, a, b) == total_points(preds.take(i), user, a, b) + if preds[i].user
            == user {
            points_for(preds[i], a, b)
        } else {
            0
        },
{
    assert(preds.take(i + 1).drop_last() =~= preds.take(i));
}

/// A prefix of the predictions earns a user no more than all of them.
pub proof fn lemma_total_prefix_le(preds: Seq<FinalPrediction>, k: int, user: u64, a: u8, b: u8)
    requires
        0 <= k <= preds.len(),
    ensures
        total_points(preds.take(k), user, a, b) <= total_points(preds, user, a, b),
    decreases preds.len(),
{
    if k < preds.len() {
        lemma_total_prefix_le(preds.drop_last(), k, user, a, b);
        assert(preds.drop_last().take(k) =~= preds.take(k));
    } else {
        assert(preds.take(k) =~= preds);
    }
}

/// Joining one more item adds the separator and the item.
pub proof fn lemma_join_push(items: Seq<Seq<char>>, x: Seq<char>, sep: Seq<char>)
    ensures
        join(items.push(x), sep) == if items.len() == 0 {
            x
        } else {
            join(items, sep) + sep + x
        },
{
    assert(items.push(x).drop_last() =~= items);
}

fn outcome_sign(a: u8, b: u8) -> (r: i8)
    ensures
        r == sign(a - b),
{
    if a > b {
        1
    } else if a < b {
        -1
    } else {
        0
    }
}

/// The points a prediction earns when the match ends `a`-`b`.
pub fn prediction_points(p: &FinalPrediction, a: u8, b: u8) -> (r: u32)
    ensures
        r == points_for(*p, a, b),
{
    if p.team_a == a && p.team_b == b {
        EXACT_POINTS
    } else if outcome_sign(p.team_a, p.team_b) == outcome_sign(a, b) {
        OUTCOME_POINTS
    } else {
        0
    }
}

fn push_winner_tag(s: &mut String, p: &FinalPrediction)
    ensures
        final(s)@ == old(s)@ + winner_tag(*p),
{
    s.append("<@");
    push_dec(s, p.user);
    s.append("> (");
    push_dec(s, p.team_a as u64);
    s.append("-");
    push_dec(s, p.team_b as u64);
    s.append(")");
    assert(s@ =~= old(s)@ + winner_tag(*p));
}

/// Appends the winners section for the predictions earning `pts` points.
fn push_winners_section(s: &mut String, preds: &Vec<FinalPrediction>, a: u8, b: u8, pts: u32)
    ensures
        final(s)@ == old(s)@ + winners_section(winners(preds@, a, b, pts as nat)),
{
    let mut names = String::new();
    let mut count: usize = 0;
    let mut i: usize = 0;
    assert(preds@.take(0) =~= Seq::<FinalPrediction>::empty());
    while i < preds.len()
        invariant
            i <= preds.len(),
            count == winners(preds@.take(i as int), a, b, pts as nat).len(),
            count <= i,
            names@ == join(winners(preds@.take(i as int), a, b, pts as nat), ", "@),
        decreases preds.len() - i,
    {
        let ghost w = winners(preds@.take(i as int), a, b, pts as nat);
        assert(preds@.take(i + 1).drop_last() =~= preds@.take(i as int));
        assert(preds@.take(i + 1).last() == preds@[i as int]);
        if prediction_points(&preds[i], a, b) == pts {
            let ghost before = names@;
            if count > 0 {
                names.append(", ");
            }
            push_winner_tag(&mut names, &preds[i]);
            proof {
                lemma_join_push(w, winner_tag(preds@[i as int]), ", "@);
            }
            assert(names@ =~= join(w.push(winner_tag(preds@[i as int])), ", "@));
            count = count + 1;
        }
        i = i + 1;
    }
    assert(preds@.take(preds.len() as int) =~= preds@);
    if count == 0 {
        s.append("> *None* <:AHAHAHA:1517999261743054948>\n");
    } else {
        s.append("> ");
        s.append(names.as_str());
        s.append("\n");
    }
    assert(s@ =~= old(s)@ + winners_section(winners(preds@, a, b, pts as nat)));
}

impl Data {
    /// Adds to each user's points what their predictions in `preds` earn,
    /// in order; stops with `false` at the first sum that would pass
    /// `u32::MAX`.
    fn award_points(&mut self, preds: &Vec<FinalPrediction>, a: u8, b: u8) -> (ok: bool)
        ensures
            final(self)@.drafts == old(self)@.drafts,
            final(self)@.finalized == old(self)@.finalized,
            final(self)@.active_polls == old(self)@.active_polls,
            final(self)@.closed_polls == old(self)@.closed_polls,
            ok == award_fits(old(self)@.user_points, preds@, a, b),
            ok ==> points_awarded(old(self)@.user_points, final(self)@.user_points, preds@, a, b),
            !ok ==> stopped_at_overflow(old(self)@.user_points, final(self)@.user_points, preds@, a, b),
    {
        let ghost old_points = self@.user_points;
        let ghost old_state = self@;
        let mut i: usize = 0;
        assert(points_awarded(old_points, self@.user_points, preds@.take(0), a, b));
        while i < preds.len()
            invariant
                i <= preds.len(),
                old_state == old(self)@,
                old_points == old_state.user_points,
                self@.drafts == old_state.drafts,
                self@.finalized == old_state.finalized,
                self@.active_polls == old_state.active_polls,
                self@.closed_polls == old_state.closed_polls,
                points_awarded(old_points, self@.user_points, preds@.take(i as int), a, b),
            decreases preds.len() - i,
        {
            let p = preds[i];
            let pts = prediction_points(&p, a, b);
            proof {
                assert forall|u: u64| #[trigger] total_points(preds@.take(i + 1), u, a, b) == total_points(
                    preds@.take(i as int),
                    u,
                    a,
                    b,
                ) + if p.user == u {
                    pts as nat
                } else {
                    0
                } by {
                    lemma_total_step(preds@, i as int, u, a, b);
                }
            }
            if pts > 0 {
                let current: u32 = match self.user_points.get(&p.user) {
                    Some(v) => *v,
                    None => 0,
                };
                match current.checked_add(pts) {
                    Some(sum) => {
                        self.user_points.insert(p.user, sum);
                    },
                    None => {
                        proof {
                            assert(points_of(old_points, p.user) + total_points(preds@.take(i + 1), p.user, a, b)
                                > u32::MAX);
                            assert forall|u: u64| #[trigger] points_of(old_points, u) + total_points(preds@.take(i as int), u, a, b) <= u32::MAX by {
                                // `u` has an entry holding a `u32`, or has earned nothing so far.
                                if self@.user_points.contains_key(u) {
                                    assert(self@.user_points[u] <= u32::MAX);
                                }
                            }
                            assert(award_fits(old_points, preds@.take(i as int), a, b));
                            assert(!award_fits(old_points, preds@.take(i + 1), a, b));
                            lemma_total_prefix_le(preds@, i + 1, p.user, a, b);
                            assert(points_of(old_points, p.user) + total_points(preds@, p.user, a, b) > u32::MAX);
                        }
                        return false;
                    },
                }
            }
            i = i + 1;
        }
        assert(preds@.take(preds.len() as int) =~= preds@);
        assert forall|u: u64| #[trigger] points_of(old_points, u) + total_points(preds@, u, a, b) <= u32::MAX by {
            // `u` has an entry holding a `u32`, or has earned nothing.
            if self@.user_points.contains_key(u) {
                assert(self@.user_points[u] <= u32::MAX);
            }
        }
        true
    }

    /// Closes the poll posted as message `msg`, which ended `a`-`b`: the poll
    /// is no longer open, its locked predictions are taken out and scored,
    /// each user earns the points of their predictions, and the results
    /// message names the exact-score and the right-outcome winners.
    pub fn settle(&mut self, msg: u64, a: u8, b: u8) -> (r: Settlement)
        ensures
            data_settled(old(self)@, final(self)@, msg, a, b, r),
    {
        let ghost s = self@;
        self.active_polls.remove(&msg);
        self.closed_polls.insert(msg);
        let preds: Vec<FinalPrediction> = match self.finalized.remove(&msg) {
            Some(list) => list,
            None => Vec::new(),
        };
        assert(preds@ == s.predictions(msg));
        assert(self@.drafts =~= closed_state(s, msg).drafts);
        assert(self@.finalized =~= closed_state(s, msg).finalized);
        let mut description = String::from_str("This poll is closed.\nFinal Score: **");
        push_dec(&mut description, a as u64);
        description.append("** - **");
        push_dec(&mut description, b as u64);
        description.append("**");
        assert(description@ =~= closed_description(a, b));
        if preds.len() == 0 {
            return Settlement::NoPredictions {
                reply: String::from_str("No predictions were locked in for this match."),
                closed_title: String::from_str("Ended"),
                closed_description: description,
                color: CLOSED_COLOR,
            };
        }
        if !self.award_points(&preds, a, b) {
            return Settlement::PointsOverflow;
        }
        let mut reply = String::from_str("### Match ended. Final Score: ");
        push_dec(&mut reply, a as u64);
        reply.append(" - ");
        push_dec(&mut reply, b as u64);
        reply.append("\n\n");
        reply.append("Exact Score Winners:\n");
        push_winners_section(&mut reply, &preds, a, b, EXACT_POINTS);
        reply.append("\nCorrect Outcome Winners:\n");
        push_winners_section(&mut reply, &preds, a, b, OUTCOME_POINTS);
        assert(reply@ =~= results_message(preds@, a, b));
        Settlement::Settled {
            reply,
            closed_title: String::from_str("Ended"),
            closed_description: description,
            color: CLOSED_COLOR,
        }
    }
}

} // verus!
