//! The slash commands: posting a poll, closing it with the final score, and
//! the information cards.

use crate::clock::{naive_utc_timestamp, parse_utc_timestamp};
use crate::scoring::{data_settled, Settlement};
use crate::text::{dec, parse_u64, parse_unsigned, push_dec, push_signed_dec, signed_dec};
use crate::types::Data;
use vstd::prelude::*;

verus! {

/// The largest goal count a score menu offers.
pub const MAX_GOALS: u8 = 10;

/// Color of a new poll card.
pub const POLL_COLOR: u32 = 0xFF0000;

/// Color of the information cards.
pub const INFO_COLOR: u32 = 0xff0069;

/// The format in which a kickoff is given: `YYYY/MM/DD HH:MM`, 24-hour clock.
pub open spec fn kickoff_format() -> Seq<char> {
    "%Y/%m/%d %H:%M"@
}

/// Why a command is refused.
#[derive(Clone, Copy, Debug, PartialEq, Eq, Structural)]
pub enum CommandError {
    /// The kickoff does not read as `YYYY/MM/DD HH:MM`.
    InvalidKickoff,
    /// The poll's message id does not read as an unsigned integer.
    InvalidMessageId,
}

impl CommandError {
    /// The text shown to the user.
    pub open spec fn spec_message(self) -> Seq<char> {
        match self {
            CommandError::InvalidKickoff => "Please use YYYY/MM/DD HH:MM e.g. (2026/6/20 18:00)"@,
            CommandError::InvalidMessageId => "invalid Message ID format."@,
        }
    }

    /// The text shown to the user.
    pub fn message(&self) -> (r: String)
        ensures
            r@ == self.spec_message(),
    {
        match self {
            CommandError::InvalidKickoff => String::from_str("Please use YYYY/MM/DD HH:MM e.g. (2026/6/20 18:00)"),
            CommandError::InvalidMessageId => String::from_str("invalid Message ID format."),
        }
    }
}

/// One entry of a score menu.
pub struct GoalOption {
    pub label: String,
    pub value: String,
}

/// The label of the menu entry for `n` goals.
pub open spec fn goal_label(n: nat) -> Seq<char> {
    dec(n) + if n == 1 {
        " Goal"@
    } else {
        " Goals"@
    }
}

/// Whether `options` are the entries of a score menu: one per goal count
/// from 0 to [`MAX_GOALS`], in order, each valued with its count.
pub open spec fn are_goal_options(options: Seq<GoalOption>) -> bool {
    &&& options.len() == MAX_GOALS as nat + 1
    &&& forall|i: int|
        0 <= i < options.len() ==> (#[trigger] options[i]).label@ == goal_label(i as nat) && options[i].value@ == dec(
            i as nat,
        )
}

/// The entries of a score menu: 0 to [`MAX_GOALS`] goals.
pub fn goal_options() -> (r: Vec<GoalOption>)
    ensures
        are_goal_options(r@),
{
    let mut r: Vec<GoalOption> = Vec::new();
    let mut i: u8 = 0;
    while i <= MAX_GOALS
        invariant
            i <= MAX_GOALS + 1,
            r.len() == i,
            forall|j: int|
                0 <= j < r.len() ==> (#[trigger] r@[j]).label@ == goal_label(j as nat) && r@[j].value@ == dec(
                    j as nat,
                ),
        decreases MAX_GOALS + 1 - i,
    {
        let mut label = String::new();
        push_dec(&mut label, i as u64);
        if i == 1 {
            label.append(" Goal");
        } else {
            label.append(" Goals");
        }
        let mut value = String::new();
        push_dec(&mut value, i as u64);
        assert(label@ =~= goal_label(i as nat));
        assert(value@ =~= dec(i as nat));
        r.push(GoalOption { label, value });
        i = i + 1;
    }
    r
}

/// The content of a new poll card.
pub struct PollCard {
    pub title: String,
    pub description: String,
    pub color: u32,
    /// The custom id and placeholder of the first team's score menu.
    pub menu_a_id: String,
    pub menu_a_placeholder: String,
    /// The custom id and placeholder of the second team's score menu.
    pub menu_b_id: String,
    pub menu_b_placeholder: String,
    /// The entries of each score menu.
    pub options: Vec<GoalOption>,
    /// The custom id and label of the lock button.
    pub lock_id: String,
    pub lock_label: String,
    /// The kickoff, in seconds since the Unix epoch (UTC).
    pub start_time: i64,
}

/// The title of the card for `team_a` against `team_b`.
pub open spec fn poll_title(team_a: Seq<char>, team_b: Seq<char>) -> Seq<char> {
    "**"@ + team_a + "** vs. **"@ + team_b + "**"@
}

/// The description of a new card for a match kicking off at `start_time`.
pub open spec fn poll_description(start_time: i64) -> Seq<char> {
    "Select your score prediction\n\n**Match Starts:** <t:"@ + signed_dec(start_time as int)
        + ":R>\n\n*No predictions yet.*"@
}

/// Whether `c` is the card for `team_a` against `team_b`, kicking off at `start_time`.
pub open spec fn is_poll_card(c: PollCard, team_a: Seq<char>, team_b: Seq<char>, start_time: i64) -> bool {
    &&& c.title@ == poll_title(team_a, team_b)
    &&& c.description@ == poll_description(start_time)
    &&& c.color == POLL_COLOR
    &&& c.menu_a_id@ == "score_team_a"@
    &&& c.menu_a_placeholder@ == team_a + " Score"@
    &&& c.menu_b_id@ == "score_team_b"@
    &&& c.menu_b_placeholder@ == team_b + " Score"@
    &&& are_goal_options(c.options@)
    &&& c.lock_id@ == "lock_prediction"@
    &&& c.lock_label@ == "Lock In Score"@
    &&& c.start_time == start_time
}

/// The card for `team_a` against `team_b`, kicking off at `start_time`.
pub fn poll_card(team_a: &str, team_b: &str, start_time: i64) -> (r: PollCard)
    ensures
        is_poll_card(r, team_a@, team_b@, start_time),
{
    let mut title = String::from_str("**");
    title.append(team_a);
    title.append("** vs. **");
    title.append(team_b);
    title.append("**");
    let mut description = String::from_str("Select your score prediction\n\n**Match Starts:** <t:");
    push_signed_dec(&mut description, start_time);
    description.append(":R>\n\n*No predictions yet.*");
    let mut placeholder_a = String::from_str(team_a);
    placeholder_a.append(" Score");
    let mut placeholder_b = String::from_str(team_b);
    placeholder_b.append(" Score");
    assert(title@ =~= poll_title(team_a@, team_b@));
    assert(description@ =~= poll_description(start_time));
    PollCard {
        title,
        description,
        color: POLL_COLOR,
        menu_a_id: String::from_str("score_team_a"),
        menu_a_placeholder: placeholder_a,
        menu_b_id: String::from_str("score_team_b"),
        menu_b_placeholder: placeholder_b,
        options: goal_options(),
        lock_id: String::from_str("lock_prediction"),
        lock_label: String::from_str("Lock In Score"),
        start_time,
    }
}

/// The card of a poll for `team_a` against `team_b`, whose kickoff `kickoff`
/// is read by chrono in the format `YYYY/MM/DD HH:MM` as a UTC time; refused
/// when chrono cannot read it.
pub fn poll_match(team_a: &str, team_b: &str, kickoff: &str) -> (r: Result<PollCard, CommandError>)
    ensures
        match naive_utc_timestamp(kickoff@, kickoff_format()) {
            Some(t) => r matches Ok(c) && is_poll_card(c, team_a@, team_b@, t),
            None => r == Err::<PollCard, CommandError>(CommandError::InvalidKickoff),
        },
{
    match parse_utc_timestamp(kickoff, "%Y/%m/%d %H:%M") {
        Ok(t) => Ok(poll_card(team_a, team_b, t)),
        Err(_) => Err(CommandError::InvalidKickoff),
    }
}

/// Closes the poll whose message id is the text `message_id_str` with the
/// final score `score_a`-`score_b` (see [`Data::settle`]) and hands back that
/// message id with the outcome; refused, with no change, when the text does
/// not read as a `u64`.
pub fn set_match_score(data: &mut Data, message_id_str: &str, score_a: u8, score_b: u8) -> (r: Result<
    (u64, Settlement),
    CommandError,
>)
    ensures
        match parse_unsigned(message_id_str@, u64::MAX as nat) {
            Some(id) => {
                &&& r is Ok
                &&& r->Ok_0.0 == id
                &&& data_settled(old(data)@, final(data)@, id as u64, score_a, score_b, r->Ok_0.1)
            },
            None => r == Err::<(u64, Settlement), CommandError>(CommandError::InvalidMessageId) && final(data)@
                == old(data)@,
        },
{
    match parse_u64(message_id_str) {
        Some(id) => Ok((id, data.settle(id, score_a, score_b))),
        None => Err(CommandError::InvalidMessageId),
    }
}

/// A card of general information, shown only to the user who asked.
pub struct InfoCard {
    pub title: String,
    pub description: String,
    pub footer: String,
    pub color: u32,
    pub ephemeral: bool,
}

/// What the bot is for.
pub fn poll_about() -> (r: InfoCard)
    ensures
        r.title@ == "World Cup Polls"@,
        r.description@
            == "A bot for tracking live World Cup score predictions.\n\nWhen a match poll is posted, use the dropdown menus to lock in your score before kickoff"@,
        r.footer@ == "By Censera"@,
        r.color == INFO_COLOR,
        r.ephemeral,
{
    InfoCard {
        title: String::from_str("World Cup Polls"),
        description: String::from_str(
            "A bot for tracking live World Cup score predictions.\n\nWhen a match poll is posted, use the dropdown menus to lock in your score before kickoff",
        ),
        footer: String::from_str("By Censera"),
        color: INFO_COLOR,
        ephemeral: true,
    }
}

/// How to name the teams and write the kickoff.
pub fn poll_help() -> (r: InfoCard)
    ensures
        r.title@ == "World Cup Polls"@,
        r.description@
            == "**Recommaneded Format**\nFor teams:\n- [Flag Team] Flag (e.g. :flag_ma: Morocco)\nFor the time:\n- YEAR/MONTH/DAY HOUR:MINUTE (e.g. 2026/6/22 14:30)"@,
        r.footer@ == "Contact @Censera for any issues"@,
        r.color == INFO_COLOR,
        r.ephemeral,
{
    InfoCard {
        title: String::from_str("World Cup Polls"),
        description: String::from_str(
            "**Recommaneded Format**\nFor teams:\n- [Flag Team] Flag (e.g. :flag_ma: Morocco)\nFor the time:\n- YEAR/MONTH/DAY HOUR:MINUTE (e.g. 2026/6/22 14:30)",
        ),
        footer: String::from_str("Contact @Censera for any issues"),
        color: INFO_COLOR,
        ephemeral: true,
    }
}

} // verus!
