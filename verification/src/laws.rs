//! Properties of the polls that hold across operations.

use crate::commands::{kickoff_format, MAX_GOALS};
use crate::interactions::{interaction_step, locked_board, selection_value, InteractionView, ReplyView, LOCKED_COLOR};
use crate::scoring::{
    closed_state, points_awarded, points_for, points_of, sign, total_points, winner_tag, winners, EXACT_POINTS,
    OUTCOME_POINTS,
};
use crate::text::{all_digits, dec, digit_char, digits_value, is_digit, parse_unsigned, unsigned_digits};
use crate::types::{FinalPrediction, Moment, PollState, UserPrediction};
use vstd::prelude::*;

verus! {

/// Whether no user has two locked predictions for the same poll.
pub open spec fn one_prediction_per_user(s: PollState) -> bool {
    forall|msg: u64, i: int, j: int|
        0 <= i < j < s.predictions(msg).len() ==> (#[trigger] s.predictions(msg)[i]).user != (#[trigger] s.predictions(
            msg,
        )[j]).user
}

/// Once a poll's kickoff has passed, no interaction changes anything: every
/// interaction is answered with the locked board and the card loses its menus.
pub proof fn law_kickoff_freezes_poll(s: PollState, e: InteractionView, now: Moment)
    requires
        s.is_locked(e.message_id, now),
    ensures
        interaction_step(s, e, now).0 == s,
        interaction_step(s, e, now).1 == (ReplyView::UpdateCard {
            description: locked_board(s.predictions(e.message_id)),
            color: LOCKED_COLOR,
            clear_components: true,
            followup: None,
        }),
{
}

/// A poll locked at some instant stays locked at every later instant.
pub proof fn law_lock_persists(s: PollState, msg: u64, t1: Moment, t2: Moment)
    requires
        s.is_locked(msg, t1),
        t1.not_later_than(t2),
    ensures
        s.is_locked(msg, t2),
{
}

/// A poll that has not been closed and whose kickoff is still ahead is not
/// locked.
pub proof fn law_open_before_kickoff(s: PollState, msg: u64, start_time: i64, now: Moment)
    requires
        !s.closed_polls.contains(msg),
        now.secs < start_time || (now.secs == start_time && now.nanos == 0),
    ensures
        !s.with_poll(msg, start_time).is_locked(msg, now),
{
}

/// A user who has locked a prediction for a poll can change nothing more on
/// it: every further interaction leaves the state as it is.
pub proof fn law_locked_prediction_is_final(s: PollState, e: InteractionView, now: Moment)
    requires
        s.has_voted(e.message_id, e.user_id),
    ensures
        interaction_step(s, e, now).0 == s,
{
}

/// Interactions never touch points or open polls, and the locked predictions
/// of every poll only grow at their end: none is changed or removed.
pub proof fn law_interactions_only_append(s: PollState, e: InteractionView, now: Moment, msg: u64)
    ensures
        interaction_step(s, e, now).0.user_points == s.user_points,
        interaction_step(s, e, now).0.active_polls == s.active_polls,
        s.predictions(msg).is_prefix_of(interaction_step(s, e, now).0.predictions(msg)),
{
    let t = interaction_step(s, e, now).0;
    if t.finalized != s.finalized {
        let d = s.draft(e.message_id, e.user_id);
        let p = FinalPrediction { user: e.user_id, team_a: d.goals_for_team_a->0, team_b: d.goals_for_team_b->0 };
        assert(t == s.with_prediction(e.message_id, p));
        if msg == e.message_id {
            assert(t.predictions(msg) == s.predictions(msg).push(p));
        } else {
            assert(t.predictions(msg) == s.predictions(msg));
        }
    }
}

/// No interaction gives a user a second prediction for a poll.
pub proof fn law_one_prediction_per_user(s: PollState, e: InteractionView, now: Moment)
    requires
        one_prediction_per_user(s),
    ensures
        one_prediction_per_user(interaction_step(s, e, now).0),
{
    let t = interaction_step(s, e, now).0;
    if t.finalized == s.finalized {
        assert forall|msg: u64, i: int, j: int|
            0 <= i < j < t.predictions(msg).len() implies (#[trigger] t.predictions(msg)[i]).user
            != (#[trigger] t.predictions(msg)[j]).user by {
            assert(t.predictions(msg) == s.predictions(msg));
        }
    } else {
        let m = e.message_id;
        let d = s.draft(m, e.user_id);
        let p = FinalPrediction { user: e.user_id, team_a: d.goals_for_team_a->0, team_b: d.goals_for_team_b->0 };
        assert(!s.has_voted(m, e.user_id));
        assert(t == s.with_prediction(m, p));
        assert forall|msg: u64, i: int, j: int|
            0 <= i < j < t.predictions(msg).len() implies (#[trigger] t.predictions(msg)[i]).user
            != (#[trigger] t.predictions(msg)[j]).user by {
            if msg == m {
                assert(t.predictions(msg) == s.predictions(msg).push(p));
                if j == s.predictions(msg).len() {
                    assert(t.predictions(msg)[i] == s.predictions(msg)[i]);
                } else {
                    assert(t.predictions(msg)[i] == s.predictions(msg)[i]);
                    assert(t.predictions(msg)[j] == s.predictions(msg)[j]);
                }
            } else {
                assert(t.predictions(msg) == s.predictions(msg));
            }
        }
    }
}

/// Opening or closing a poll gives no user a second prediction either.
pub proof fn law_one_prediction_per_user_open_close(s: PollState, msg: u64, start_time: i64)
    requires
        one_prediction_per_user(s),
    ensures
        one_prediction_per_user(s.with_poll(msg, start_time)),
        one_prediction_per_user(closed_state(s, msg)),
{
    let c = closed_state(s, msg);
    assert forall|m: u64, i: int, j: int|
        0 <= i < j < c.predictions(m).len() implies (#[trigger] c.predictions(m)[i]).user
        != (#[trigger] c.predictions(m)[j]).user by {
        assert(c.predictions(m) == s.predictions(m));
    }
    let o = s.with_poll(msg, start_time);
    assert forall|m: u64, i: int, j: int|
        0 <= i < j < o.predictions(m).len() implies (#[trigger] o.predictions(m)[i]).user
        != (#[trigger] o.predictions(m)[j]).user by {
        assert(o.predictions(m) == s.predictions(m));
    }
}

/// Choosing a score for each team and then pressing the lock button, all
/// before kickoff and with no earlier locked prediction, locks exactly the
/// two chosen scores at the end of the poll's predictions.
pub proof fn law_select_then_lock(
    s: PollState,
    msg: u64,
    user: u64,
    value_a: Seq<char>,
    value_b: Seq<char>,
    t1: Moment,
    t2: Moment,
    t3: Moment,
)
    requires
        !s.is_locked(msg, t1),
        !s.is_locked(msg, t2),
        !s.is_locked(msg, t3),
        !s.has_voted(msg, user),
    ensures
        ({
            let e1 = InteractionView { message_id: msg, user_id: user, custom_id: "score_team_a"@, selected: Some(seq![value_a]) };
            let e2 = InteractionView { message_id: msg, user_id: user, custom_id: "score_team_b"@, selected: Some(seq![value_b]) };
            let e3 = InteractionView { message_id: msg, user_id: user, custom_id: "lock_prediction"@, selected: None };
            let s1 = interaction_step(s, e1, t1).0;
            let s2 = interaction_step(s1, e2, t2).0;
            let s3 = interaction_step(s2, e3, t3).0;
            &&& s3.predictions(msg) == s.predictions(msg).push(
                FinalPrediction { user, team_a: selection_value(value_a), team_b: selection_value(value_b) },
            )
            &&& s3.has_voted(msg, user)
        }),
{
    reveal_strlit("score_team_a");
    reveal_strlit("score_team_b");
    reveal_strlit("lock_prediction");
    let e1 = InteractionView { message_id: msg, user_id: user, custom_id: "score_team_a"@, selected: Some(seq![value_a]) };
    let e2 = InteractionView { message_id: msg, user_id: user, custom_id: "score_team_b"@, selected: Some(seq![value_b]) };
    let e3 = InteractionView { message_id: msg, user_id: user, custom_id: "lock_prediction"@, selected: None };
    assert("score_team_b"@ != "score_team_a"@) by {
        assert("score_team_b"@[11] != "score_team_a"@[11]);
    }
    assert("lock_prediction"@ != "score_team_a"@) by {
        assert("lock_prediction"@[0] != "score_team_a"@[0]);
    }
    assert("lock_prediction"@ != "score_team_b"@) by {
        assert("lock_prediction"@[0] != "score_team_b"@[0]);
    }
    let d = s.draft(msg, user);
    let va = selection_value(value_a);
    let vb = selection_value(value_b);
    let s1 = interaction_step(s, e1, t1).0;
    let d1 = UserPrediction { goals_for_team_a: Some(va), goals_for_team_b: d.goals_for_team_b };
    assert(s1 == s.with_draft(msg, user, d1));
    assert(s1.draft(msg, user) == d1);
    assert(s1.predictions(msg) == s.predictions(msg));
    let s2 = interaction_step(s1, e2, t2).0;
    let d2 = UserPrediction { goals_for_team_a: Some(va), goals_for_team_b: Some(vb) };
    assert(s2 == s1.with_draft(msg, user, d2));
    assert(s2.draft(msg, user) == d2);
    assert(s2.predictions(msg) == s.predictions(msg));
    let p = FinalPrediction { user, team_a: va, team_b: vb };
    let s3 = interaction_step(s2, e3, t3).0;
    assert(s3 == s2.with_prediction(msg, p));
    assert(s3.predictions(msg) == s.predictions(msg).push(p));
    assert(s3.predictions(msg)[s.predictions(msg).len() as int].user == user);
}

/// Whether the scores `a`-`b` and `c`-`d` name the same winner: both home
/// wins, both away wins, or both draws.
pub open spec fn same_winner(a: int, b: int, c: int, d: int) -> bool {
    ||| a > b && c > d
    ||| a < b && c < d
    ||| a == b && c == d
}

/// Points follow the table: 3 for the exact score, 1 for the right winner
/// (home win, away win or draw) with another score, 0 for the wrong winner.
pub proof fn law_points_table(p: FinalPrediction, a: u8, b: u8)
    ensures
        points_for(p, a, b) == 3 <==> (p.team_a == a && p.team_b == b),
        points_for(p, a, b) == 1 <==> (!(p.team_a == a && p.team_b == b) && same_winner(
            p.team_a as int,
            p.team_b as int,
            a as int,
            b as int,
        )),
        points_for(p, a, b) == 0 <==> !same_winner(p.team_a as int, p.team_b as int, a as int, b as int),
        EXACT_POINTS == 3,
        OUTCOME_POINTS == 1,
{
}

/// The sign of a goal difference is -1, 0 or 1 exactly as the difference is
/// negative, zero or positive.
pub proof fn law_sign(x: int)
    ensures
        sign(x) == -1 <==> x < 0,
        sign(x) == 0 <==> x == 0,
        sign(x) == 1 <==> x > 0,
{
}

/// An interaction of one user on one poll changes no draft of another user
/// and no draft on another poll.
pub proof fn law_interaction_keeps_other_drafts(s: PollState, e: InteractionView, now: Moment, msg: u64, user: u64)
    requires
        user != e.user_id || msg != e.message_id,
    ensures
        interaction_step(s, e, now).0.draft(msg, user) == s.draft(msg, user),
{
}

/// Setting a user's draft sets that draft and leaves every other draft, on
/// every poll, as it was.
pub proof fn law_set_draft(s: PollState, msg: u64, user: u64, d: UserPrediction, m: u64, v: u64)
    ensures
        s.with_draft(msg, user, d).draft(msg, user) == d,
        (m != msg || v != user) ==> s.with_draft(msg, user, d).draft(m, v) == s.draft(m, v),
        s.with_draft(msg, user, d).predictions(m) == s.predictions(m),
        s.with_draft(msg, user, d).active_polls == s.active_polls,
        s.with_draft(msg, user, d).user_points == s.user_points,
{
}

/// Closing one poll leaves every other poll as it was: its kickoff, its
/// lock at every instant, its drafts and its predictions. No user's points
/// change by closing alone.
pub proof fn law_closing_keeps_other_polls(s: PollState, msg: u64, m: u64, user: u64, now: Moment)
    requires
        m != msg,
    ensures
        closed_state(s, msg).active_polls.contains_key(m) == s.active_polls.contains_key(m),
        s.active_polls.contains_key(m) ==> closed_state(s, msg).active_polls[m] == s.active_polls[m],
        closed_state(s, msg).is_locked(m, now) == s.is_locked(m, now),
        closed_state(s, msg).predictions(m) == s.predictions(m),
        closed_state(s, msg).draft(m, user) == s.draft(m, user),
        closed_state(s, msg).user_points == s.user_points,
{
}

/// The kickoff is read in the format `YYYY/MM/DD HH:MM`: year, month and
/// day separated by '/', a space, then hour and minute separated by ':'.
pub proof fn law_kickoff_format()
    ensures
        kickoff_format() == seq!['%', 'Y', '/', '%', 'm', '/', '%', 'd', ' ', '%', 'H', ':', '%', 'M'],
{
    reveal_strlit("%Y/%m/%d %H:%M");
    assert(kickoff_format() =~= seq!['%', 'Y', '/', '%', 'm', '/', '%', 'd', ' ', '%', 'H', ':', '%', 'M']);
}

/// A poll opened with kickoff `start_time` is locked at `now` exactly when it
/// had been closed, or `now` lies strictly after the kickoff (counted in
/// nanoseconds since the epoch).
pub proof fn law_poll_locks_after_kickoff(s: PollState, msg: u64, start_time: i64, now: Moment)
    requires
        now.nanos < 1_000_000_000,
    ensures
        s.with_poll(msg, start_time).is_locked(msg, now) <==> (s.closed_polls.contains(msg) || now.secs
            * 1_000_000_000 + now.nanos > start_time * 1_000_000_000),
{
}

/// A user with no prediction in `preds` earns nothing from them.
pub proof fn law_no_prediction_no_points(preds: Seq<FinalPrediction>, user: u64, a: u8, b: u8)
    requires
        forall|i: int| 0 <= i < preds.len() ==> (#[trigger] preds[i]).user != user,
    ensures
        total_points(preds, user, a, b) == 0,
    decreases preds.len(),
{
    if preds.len() > 0 {
        let q = preds.drop_last();
        assert forall|i: int| 0 <= i < q.len() implies (#[trigger] q[i]).user != user by {
            assert(q[i] == preds[i]);
        }
        law_no_prediction_no_points(q, user, a, b);
        assert(preds[preds.len() - 1].user != user);
    }
}

/// The points earned from two runs of predictions add up.
pub proof fn law_total_points_add(p1: Seq<FinalPrediction>, p2: Seq<FinalPrediction>, user: u64, a: u8, b: u8)
    ensures
        total_points(p1 + p2, user, a, b) == total_points(p1, user, a, b) + total_points(p2, user, a, b),
    decreases p2.len(),
{
    if p2.len() == 0 {
        assert(p1 + p2 =~= p1);
    } else {
        law_total_points_add(p1, p2.drop_last(), user, a, b);
        assert((p1 + p2).drop_last() =~= p1 + p2.drop_last());
        assert((p1 + p2).last() == p2.last());
    }
}

/// A single prediction earns its owner its points, and nobody else anything.
pub proof fn law_single_prediction_points(p: FinalPrediction, user: u64, a: u8, b: u8)
    ensures
        total_points(seq![p], user, a, b) == if p.user == user {
            points_for(p, a, b)
        } else {
            0
        },
{
    assert(seq![p].drop_last() =~= Seq::<FinalPrediction>::empty());
    assert(total_points(Seq::<FinalPrediction>::empty(), user, a, b) == 0);
    assert(seq![p].last() == p);
}

/// Awarding the points of `preds` leaves the points of a user with no
/// prediction there exactly as they were (no entry made, none dropped).
pub proof fn law_award_spares_non_predictors(
    old: Map<u64, u32>,
    new: Map<u64, u32>,
    preds: Seq<FinalPrediction>,
    a: u8,
    b: u8,
    user: u64,
)
    requires
        points_awarded(old, new, preds, a, b),
        forall|i: int| 0 <= i < preds.len() ==> (#[trigger] preds[i]).user != user,
    ensures
        new.contains_key(user) == old.contains_key(user),
        old.contains_key(user) ==> new[user] == old[user],
{
    law_no_prediction_no_points(preds, user, a, b);
    if old.contains_key(user) {
        assert(new.contains_key(user));
        assert(points_of(old, user) == old[user]);
    }
}

/// The winners listed for `pts` points are the tags of exactly the
/// predictions that earn `pts` points, in the order they were locked.
pub proof fn law_winners_are_the_scorers(preds: Seq<FinalPrediction>, a: u8, b: u8, pts: nat)
    ensures
        winners(preds, a, b, pts) == preds.filter(|p: FinalPrediction| points_for(p, a, b) == pts).map_values(
            |p: FinalPrediction| winner_tag(p),
        ),
    decreases preds.len(),
{
    reveal_with_fuel(Seq::<FinalPrediction>::filter, 1);
    let f = |p: FinalPrediction| points_for(p, a, b) == pts;
    let g = |p: FinalPrediction| winner_tag(p);
    if preds.len() == 0 {
        assert(preds.filter(f) =~= Seq::<FinalPrediction>::empty());
        assert(preds.filter(f).map_values(g) =~= Seq::<Seq<char>>::empty());
    } else {
        law_winners_are_the_scorers(preds.drop_last(), a, b, pts);
        let q = preds.drop_last().filter(f);
        if f(preds.last()) {
            assert(preds.filter(f) == q.push(preds.last()));
            assert(q.push(preds.last()).map_values(g) =~= q.map_values(g).push(winner_tag(preds.last())));
        } else {
            assert(preds.filter(f) == q);
        }
    }
}

/// Awarding points never lowers a user's points nor drops a user.
pub proof fn law_points_never_decrease(
    old: Map<u64, u32>,
    new: Map<u64, u32>,
    preds: Seq<FinalPrediction>,
    a: u8,
    b: u8,
    user: u64,
)
    requires
        points_awarded(old, new, preds, a, b),
        old.contains_key(user),
    ensures
        new.contains_key(user),
        new[user] >= old[user],
{
    assert(new.contains_key(user));
    assert(new[user] == old[user] + crate::scoring::total_points(preds, user, a, b));
}

/// Closing a poll twice is closing it once; a closed poll is not open, holds
/// no prediction (so closing it again awards nothing), and is locked at
/// every instant, so no interaction changes it any more.
pub proof fn law_closing_is_final(s: PollState, msg: u64, now: Moment)
    ensures
        closed_state(closed_state(s, msg), msg) == closed_state(s, msg),
        closed_state(s, msg).predictions(msg).len() == 0,
        !closed_state(s, msg).active_polls.contains_key(msg),
        closed_state(s, msg).is_locked(msg, now),
{
    assert(closed_state(s, msg).finalized.remove(msg) =~= closed_state(s, msg).finalized);
    assert(closed_state(s, msg).active_polls.remove(msg) =~= closed_state(s, msg).active_polls);
    assert(closed_state(s, msg).closed_polls.insert(msg) =~= closed_state(s, msg).closed_polls);
}

/// The decimal text of a number reads back as that number, for any integer
/// type that holds it.
pub proof fn law_decimal_round_trip(n: nat, max: nat)
    requires
        n <= max,
    ensures
        parse_unsigned(dec(n), max) == Some(n),
{
    lemma_dec_digits(n);
    assert(unsigned_digits(dec(n)) == dec(n)) by {
        assert(is_digit(dec(n)[0]));
    }
}

/// Every menu entry's value reads back as its goal count.
pub proof fn law_goal_option_values_read_back(n: nat)
    requires
        n <= MAX_GOALS,
    ensures
        selection_value(dec(n)) == n,
{
    law_decimal_round_trip(n, u8::MAX as nat);
}

proof fn lemma_dec_digits(n: nat)
    ensures
        dec(n).len() > 0,
        all_digits(dec(n)),
        digits_value(dec(n)) == n,
    decreases n,
{
    let last = (n % 10) as int;
    assert(digit_char(last) as int == last + 48);
    if n < 10 {
        assert(dec(n).drop_last() =~= Seq::<char>::empty());
        assert(dec(n).last() == digit_char(last));
        assert(digits_value(dec(n)) == digits_value(Seq::<char>::empty()) * 10 + ((digit_char(last) as int) - 48) as nat);
    } else {
        lemma_dec_digits(n / 10);
        let s = dec(n);
        assert(s.drop_last() == dec(n / 10));
        assert(s.last() == digit_char(last));
        assert(digits_value(s) == digits_value(dec(n / 10)) * 10 + ((digit_char(last) as int) - 48) as nat);
        assert((n / 10) * 10 + n % 10 == n);
        assert forall|i: int| 0 <= i < s.len() implies is_digit(#[trigger] s[i]) by {
            if i < s.len() - 1 {
                assert(s[i] == dec(n / 10)[i]);
            }
        }
    }
}

} // verus!
