//! What the bot does when a user touches a poll card: the score menus, the
//! lock button, and the kickoff lock.

use crate::clock::utc_now;
use crate::text::{dec, parse_u8, parse_unsigned, push_dec, push_signed_dec, signed_dec};
use crate::types::{Data, FinalPrediction, Moment, PollState, UserPrediction};
use vstd::prelude::*;

verus! {

/// Card color once predictions are locked at kickoff.
pub const LOCKED_COLOR: u32 = 0xf4f800;

/// Card color while the poll takes predictions.
pub const OPEN_COLOR: u32 = 0xff0069;

/// A user's click or selection on a poll card.
pub struct Interaction {
    /// The poll card's message.
    pub message_id: u64,
    /// The user who interacted.
    pub user_id: u64,
    /// The component's custom id.
    pub custom_id: String,
    /// The chosen values, when the component is a string select menu.
    pub selected: Option<Vec<String>>,
}

/// The abstract content of an [`Interaction`].
pub struct InteractionView {
    pub message_id: u64,
    pub user_id: u64,
    pub custom_id: Seq<char>,
    pub selected: Option<Seq<Seq<char>>>,
}

impl View for Interaction {
    type V = InteractionView;

    open spec fn view(&self) -> InteractionView {
        InteractionView {
            message_id: self.message_id,
            user_id: self.user_id,
            custom_id: self.custom_id@,
            selected: match self.selected {
                Some(v) => Some(v@.map_values(|x: String| x@)),
                None => None,
            },
        }
    }
}

/// How the bot answers an interaction.
pub enum Reply {
    /// Rewrite the poll card: new description and color, same title; remove
    /// its menus and button when `clear_components`; then, if `followup` is
    /// set, send that text to the user alone.
    UpdateCard { description: String, color: u32, clear_components: bool, followup: Option<String> },
    /// A message that only the user sees.
    Ephemeral(String),
    /// Acknowledge the interaction with no visible change; `warning`, when
    /// set, is a diagnostic line for the operator's log.
    Acknowledge { warning: Option<String> },
    /// A score menu reported a selection with no chosen value.
    MissingSelection,
    /// No answer at all.
    Ignore,
}

/// The abstract content of a [`Reply`].
#[verifier::ext_equal]
pub enum ReplyView {
    UpdateCard { description: Seq<char>, color: u32, clear_components: bool, followup: Option<Seq<char>> },
    Ephemeral(Seq<char>),
    Acknowledge { warning: Option<Seq<char>> },
    MissingSelection,
    Ignore,
}

impl View for Reply {
    type V = ReplyView;

    open spec fn view(&self) -> ReplyView {
        match self {
            Reply::UpdateCard { description, color, clear_components, followup } => ReplyView::UpdateCard {
                description: description@,
                color: *color,
                clear_components: *clear_components,
                followup: match followup {
                    Some(f) => Some(f@),
                    None => None,
                },
            },
            Reply::Ephemeral(m) => ReplyView::Ephemeral(m@),
            Reply::Acknowledge { warning } => ReplyView::Acknowledge {
                warning: match warning {
                    Some(w) => Some(w@),
                    None => None,
                },
            },
            Reply::MissingSelection => ReplyView::MissingSelection,
            Reply::Ignore => ReplyView::Ignore,
        }
    }
}

/// One line of a prediction board: the user's mention and the two scores,
/// separated by `mid`.
pub open spec fn board_line(p: FinalPrediction, mid: Seq<char>) -> Seq<char> {
    "> <@"@ + dec(p.user as nat) + "> : **"@ + dec(p.team_a as nat) + mid + dec(p.team_b as nat)
        + "**\n"@
}

/// The lines of a prediction board, one per prediction, in order.
pub open spec fn board_lines(preds: Seq<FinalPrediction>, mid: Seq<char>) -> Seq<char>
    decreases preds.len(),
{
    if preds.len() == 0 {
        Seq::empty()
    } else {
        board_lines(preds.drop_last(), mid) + board_line(preds.last(), mid)
    }
}

/// The card text once predictions are locked at kickoff.
pub open spec fn locked_board(preds: Seq<FinalPrediction>) -> Seq<char> {
    "*Predictions are Locked.\nThe match has started.*\n\n"@ + board_lines(preds, " - "@)
}

/// The kickoff of the poll `msg`, when it is open.
pub open spec fn kickoff_of(s: PollState, msg: u64) -> Option<i64> {
    if s.active_polls.contains_key(msg) {
        Some(s.active_polls[msg].start_time)
    } else {
        None
    }
}

/// The card text after a prediction is locked in: the kickoff (when the poll
/// is open) and the board of all predictions.
pub open spec fn open_board(kickoff: Option<i64>, preds: Seq<FinalPrediction>) -> Seq<char> {
    let head = match kickoff {
        Some(ts) => "Select your score prediction\n\n**Match Starts: **<t:"@ + signed_dec(ts as int)
            + ":R>\n\n"@,
        None => Seq::empty(),
    };
    head + "**Predictions:**\n"@ + board_lines(preds, "** - **"@)
}

/// The goal count that a chosen menu value stands for: the value read as a
/// `u8`, or 0 when it does not read as one.
pub open spec fn selection_value(v: Seq<char>) -> u8 {
    match parse_unsigned(v, u8::MAX as nat) {
        Some(n) => n as u8,
        None => 0,
    }
}

/// The diagnostic for a first team's menu value that does not read as a
/// goal count.
pub open spec fn selection_warning(custom_id: Seq<char>, value: Seq<char>) -> Option<Seq<char>> {
    if custom_id == "score_team_a"@ && parse_unsigned(value, u8::MAX as nat) is None {
        Some("Failed to parse selection as u8: "@ + value)
    } else {
        None
    }
}

/// What an interaction does: the next state and the answer.
///
/// Once the poll's kickoff has passed, or the poll has been closed, every
/// interaction only shows the locked board. A user who has locked a prediction is told so. Otherwise the
/// score menus set one team's score of the user's draft, and the lock button
/// turns a complete draft into a locked prediction.
pub open spec fn interaction_step(s: PollState, e: InteractionView, now: Moment) -> (PollState, ReplyView) {
    let msg = e.message_id;
    let user = e.user_id;
    if s.is_locked(msg, now) {
        (s, ReplyView::UpdateCard {
            description: locked_board(s.predictions(msg)),
            color: LOCKED_COLOR,
            clear_components: true,
            followup: None,
        })
    } else if s.has_voted(msg, user) {
        (s, ReplyView::Ephemeral("You already locked your score"@))
    } else if e.custom_id == "score_team_a"@ || e.custom_id == "score_team_b"@ {
        match e.selected {
            None => (s, ReplyView::Acknowledge { warning: None }),
            Some(values) => if values.len() == 0 {
                (s, ReplyView::MissingSelection)
            } else {
                let d = s.draft(msg, user);
                let goals = Some(selection_value(values[0]));
                let nd = if e.custom_id == "score_team_a"@ {
                    UserPrediction { goals_for_team_a: goals, goals_for_team_b: d.goals_for_team_b }
                } else {
                    UserPrediction { goals_for_team_a: d.goals_for_team_a, goals_for_team_b: goals }
                };
                (s.with_draft(msg, user, nd), ReplyView::Acknowledge {
                    warning: selection_warning(e.custom_id, values[0]),
                })
            },
        }
    } else if e.custom_id == "lock_prediction"@ {
        let d = s.draft(msg, user);
        if d.goals_for_team_a is Some && d.goals_for_team_b is Some {
            let p = FinalPrediction {
                user,
                team_a: d.goals_for_team_a->0,
                team_b: d.goals_for_team_b->0,
            };
            let s2 = s.with_prediction(msg, p);
            (s2, ReplyView::UpdateCard {
                description: open_board(kickoff_of(s, msg), s2.predictions(msg)),
                color: OPEN_COLOR,
                clear_components: false,
                followup: Some("Locked in, your prediction is added to the board."@),
            })
        } else {
            (s, ReplyView::Ephemeral("You must select a score for both teams"@))
        }
    } else {
        (s, ReplyView::Ignore)
    }
}

/// The goal count that a chosen menu value stands for (0 when it does not
/// read as a `u8`).
pub fn selection_value_of(value: &str) -> (r: u8)
    ensures
        r == selection_value(value@),
{
    match parse_u8(value) {
        Some(v) => v,
        None => 0,
    }
}

fn push_board_line(s: &mut String, p: &FinalPrediction, mid: &str)
    ensures
        final(s)@ == old(s)@ + board_line(*p, mid@),
{
    s.append("> <@");
    push_dec(s, p.user);
    s.append("> : **");
    push_dec(s, p.team_a as u64);
    s.append(mid);
    push_dec(s, p.team_b as u64);
    s.append("**\n");
    assert(s@ =~= old(s)@ + board_line(*p, mid@));
}

fn push_board_lines(s: &mut String, preds: &Vec<FinalPrediction>, mid: &str)
    ensures
        final(s)@ == old(s)@ + board_lines(preds@, mid@),
{
    let ghost s0 = s@;
    let mut i: usize = 0;
    assert(preds@.take(0) =~= Seq::<FinalPrediction>::empty());
    while i < preds.len()
        invariant
            i <= preds.len(),
            s@ == s0 + board_lines(preds@.take(i as int), mid@),
        decreases preds.len() - i,
    {
        push_board_line(s, &preds[i], mid);
        assert(preds@.take(i + 1).drop_last() =~= preds@.take(i as int));
        assert(s@ =~= s0 + board_lines(preds@.take(i + 1), mid@));
        i = i + 1;
    }
    assert(preds@.take(preds.len() as int) =~= preds@);
}

/// Appends the board of the poll `msg` to `s`.
fn push_board(s: &mut String, data: &Data, msg: u64, mid: &str)
    ensures
        final(s)@ == old(s)@ + board_lines(data@.predictions(msg), mid@),
{
    match data.finalized.get(&msg) {
        Some(list) => push_board_lines(s, list, mid),
        None => {
            assert(s@ =~= old(s)@ + board_lines(data@.predictions(msg), mid@));
        },
    }
}

/// Handles an interaction at the instant `now`.
pub fn handle_interaction_at(data: &mut Data, interaction: &Interaction, now: Moment) -> (r: Reply)
    ensures
        final(data)@ =~= interaction_step(old(data)@, interaction@, now).0,
        r@ =~= interaction_step(old(data)@, interaction@, now).1,
{
    let msg = interaction.message_id;
    let user = interaction.user_id;
    let kickoff: Option<i64> = match data.active_polls.get(&msg) {
        Some(info) => Some(info.start_time),
        None => None,
    };
    assert(kickoff == kickoff_of(old(data)@, msg));
    let locked = data.closed_polls.contains(&msg) || match kickoff {
        Some(start) => now.after(start),
        None => false,
    };
    if locked {
        let mut display = String::from_str("*Predictions are Locked.\nThe match has started.*\n\n");
        push_board(&mut display, data, msg, " - ");
        return Reply::UpdateCard {
            description: display,
            color: LOCKED_COLOR,
            clear_components: true,
            followup: None,
        };
    }
    if data.has_voted(msg, user) {
        return Reply::Ephemeral(String::from_str("You already locked your score"));
    }
    let id_a = String::from_str("score_team_a");
    let id_b = String::from_str("score_team_b");
    let id_lock = String::from_str("lock_prediction");
    if interaction.custom_id == id_a || interaction.custom_id == id_b {
        match &interaction.selected {
            None => Reply::Acknowledge { warning: None },
            Some(values) => {
                if values.len() == 0 {
                    return Reply::MissingSelection;
                }
                let goals: u8 = selection_value_of(values[0].as_str());
                assert(goals == selection_value(interaction@.selected->0[0]));
                let d = data.draft(msg, user);
                let nd = if interaction.custom_id == id_a {
                    UserPrediction { goals_for_team_a: Some(goals), goals_for_team_b: d.goals_for_team_b }
                } else {
                    UserPrediction { goals_for_team_a: d.goals_for_team_a, goals_for_team_b: Some(goals) }
                };
                data.set_draft(msg, user, nd);
                let warning = if interaction.custom_id == id_a && parse_u8(values[0].as_str()).is_none() {
                    let mut w = String::from_str("Failed to parse selection as u8: ");
                    w.append(values[0].as_str());
                    Some(w)
                } else {
                    None
                };
                Reply::Acknowledge { warning }
            },
        }
    } else if interaction.custom_id == id_lock {
        let d = data.draft(msg, user);
        match (d.goals_for_team_a, d.goals_for_team_b) {
            (Some(a), Some(b)) => {
                data.push_prediction(msg, FinalPrediction { user, team_a: a, team_b: b });
                let mut display = String::new();
                match kickoff {
                    Some(ts) => {
                        display.append("Select your score prediction\n\n**Match Starts: **<t:");
                        push_signed_dec(&mut display, ts);
                        display.append(":R>\n\n");
                    },
                    None => {},
                }
                display.append("**Predictions:**\n");
                push_board(&mut display, data, msg, "** - **");
                assert(display@ =~= open_board(kickoff, data@.predictions(msg)));
                Reply::UpdateCard {
                    description: display,
                    color: OPEN_COLOR,
                    clear_components: false,
                    followup: Some(String::from_str("Locked in, your prediction is added to the board.")),
                }
            },
            _ => Reply::Ephemeral(String::from_str("You must select a score for both teams")),
        }
    } else {
        Reply::Ignore
    }
}

/// Handles an interaction at the current instant of the system clock: the
/// state and the answer are those of [`interaction_step`] at some instant.
pub fn handle_interaction(data: &mut Data, interaction: &Interaction) -> (r: Reply)
    ensures
        exists|now: Moment|
            {
                &&& final(data)@ =~= #[trigger] interaction_step(old(data)@, interaction@, now).0
                &&& r@ =~= interaction_step(old(data)@, interaction@, now).1
            },
{
    let now = utc_now();
    let r = handle_interaction_at(data, interaction, now);
    assert(final(data)@ =~= interaction_step(old(data)@, interaction@, now).0);
    r
}

} // verus!
