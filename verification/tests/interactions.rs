use wcp::interactions::{handle_interaction, handle_interaction_at, Interaction, Reply, LOCKED_COLOR, OPEN_COLOR};
use wcp::types::{Data, Moment};

const MSG: u64 = 125839485729304958;
const KICKOFF: i64 = 1782410400;

fn before() -> Moment {
    Moment { secs: KICKOFF - 60, nanos: 0 }
}

fn select(user: u64, id: &str, value: &str) -> Interaction {
    Interaction {
        message_id: MSG,
        user_id: user,
        custom_id: id.to_string(),
        selected: Some(vec![value.to_string()]),
    }
}

fn lock(user: u64) -> Interaction {
    Interaction { message_id: MSG, user_id: user, custom_id: "lock_prediction".to_string(), selected: None }
}

fn open_data() -> Data {
    let mut d = Data::new();
    d.open_poll(MSG, KICKOFF);
    d
}

fn card(r: Reply) -> (String, u32, bool, Option<String>) {
    match r {
        Reply::UpdateCard { description, color, clear_components, followup } => {
            (description, color, clear_components, followup)
        },
        _ => panic!("expected a card update"),
    }
}

#[test]
fn select_both_then_lock() {
    let mut d = open_data();
    assert!(matches!(handle_interaction_at(&mut d, &select(7, "score_team_a", "2"), before()), Reply::Acknowledge { warning: None }));
    assert!(matches!(handle_interaction_at(&mut d, &select(7, "score_team_b", "1"), before()), Reply::Acknowledge { warning: None }));
    let draft = d.drafts[&MSG][&7];
    assert_eq!(draft.goals_for_team_a, Some(2));
    assert_eq!(draft.goals_for_team_b, Some(1));
    let (desc, color, clear, followup) = card(handle_interaction_at(&mut d, &lock(7), before()));
    assert_eq!(
        desc,
        "Select your score prediction\n\n**Match Starts: **<t:1782410400:R>\n\n**Predictions:**\n> <@7> : **2** - **1**\n"
    );
    assert_eq!(color, OPEN_COLOR);
    assert!(!clear);
    assert_eq!(followup.as_deref(), Some("Locked in, your prediction is added to the board."));
    assert_eq!(d.finalized[&MSG].len(), 1);
    assert_eq!(d.finalized[&MSG][0].user, 7);
    assert_eq!(d.finalized[&MSG][0].team_a, 2);
    assert_eq!(d.finalized[&MSG][0].team_b, 1);
}

#[test]
fn board_lists_every_prediction_in_order() {
    let mut d = open_data();
    for (u, a, b) in [(1u64, "0", "0"), (2, "3", "1")] {
        handle_interaction_at(&mut d, &select(u, "score_team_a", a), before());
        handle_interaction_at(&mut d, &select(u, "score_team_b", b), before());
        handle_interaction_at(&mut d, &lock(u), before());
    }
    assert_eq!(d.finalized[&MSG].len(), 2);
    let (desc, _, _, _) = card({
        handle_interaction_at(&mut d, &select(3, "score_team_a", "1"), before());
        handle_interaction_at(&mut d, &select(3, "score_team_b", "1"), before());
        handle_interaction_at(&mut d, &lock(3), before())
    });
    assert!(desc.ends_with("**Predictions:**\n> <@1> : **0** - **0**\n> <@2> : **3** - **1**\n> <@3> : **1** - **1**\n"));
}

#[test]
fn second_lock_is_refused() {
    let mut d = open_data();
    handle_interaction_at(&mut d, &select(7, "score_team_a", "2"), before());
    handle_interaction_at(&mut d, &select(7, "score_team_b", "1"), before());
    handle_interaction_at(&mut d, &lock(7), before());
    for i in [lock(7), select(7, "score_team_a", "5")] {
        match handle_interaction_at(&mut d, &i, before()) {
            Reply::Ephemeral(m) => assert_eq!(m, "You already locked your score"),
            _ => panic!("expected a refusal"),
        }
    }
    assert_eq!(d.finalized[&MSG].len(), 1);
    assert_eq!(d.drafts[&MSG][&7].goals_for_team_a, Some(2));
}

#[test]
fn lock_needs_both_scores() {
    let mut d = open_data();
    handle_interaction_at(&mut d, &select(7, "score_team_a", "2"), before());
    match handle_interaction_at(&mut d, &lock(7), before()) {
        Reply::Ephemeral(m) => assert_eq!(m, "You must select a score for both teams"),
        _ => panic!("expected a refusal"),
    }
    assert!(d.finalized.get(&MSG).is_none());
}

#[test]
fn kickoff_locks_the_poll() {
    let mut d = open_data();
    handle_interaction_at(&mut d, &select(7, "score_team_a", "2"), before());
    handle_interaction_at(&mut d, &select(7, "score_team_b", "1"), before());
    handle_interaction_at(&mut d, &lock(7), before());
    let at_kickoff = Moment { secs: KICKOFF, nanos: 0 };
    assert!(matches!(handle_interaction_at(&mut d, &select(8, "score_team_a", "1"), at_kickoff), Reply::Acknowledge { warning: None }));
    let just_after = Moment { secs: KICKOFF, nanos: 1 };
    let (desc, color, clear, followup) = card(handle_interaction_at(&mut d, &select(9, "score_team_a", "1"), just_after));
    assert_eq!(desc, "*Predictions are Locked.\nThe match has started.*\n\n> <@7> : **2 - 1**\n");
    assert_eq!(color, LOCKED_COLOR);
    assert!(clear);
    assert!(followup.is_none());
    assert!(d.drafts[&MSG].get(&9).is_none());
    let later = Moment { secs: KICKOFF + 3600, nanos: 0 };
    let (desc2, _, _, _) = card(handle_interaction_at(&mut d, &lock(8), later));
    assert_eq!(desc2, desc);
    assert_eq!(d.finalized[&MSG].len(), 1);
}

#[test]
fn unknown_component_is_ignored() {
    let mut d = open_data();
    let i = Interaction { message_id: MSG, user_id: 7, custom_id: "other".to_string(), selected: None };
    assert!(matches!(handle_interaction_at(&mut d, &i, before()), Reply::Ignore));
}

#[test]
fn unreadable_selection_counts_as_zero() {
    let mut d = open_data();
    assert!(matches!(
        handle_interaction_at(&mut d, &select(7, "score_team_b", "many"), before()),
        Reply::Acknowledge { warning: None }
    ));
    assert_eq!(d.drafts[&MSG][&7].goals_for_team_b, Some(0));
    assert_eq!(d.drafts[&MSG][&7].goals_for_team_a, None);
    match handle_interaction_at(&mut d, &select(7, "score_team_a", "x1"), before()) {
        Reply::Acknowledge { warning } => {
            assert_eq!(warning.as_deref(), Some("Failed to parse selection as u8: x1"))
        },
        _ => panic!("expected an acknowledgement"),
    }
    assert_eq!(d.drafts[&MSG][&7].goals_for_team_a, Some(0));
}

#[test]
fn closed_poll_takes_no_prediction() {
    let mut d = open_data();
    handle_interaction_at(&mut d, &select(7, "score_team_a", "2"), before());
    handle_interaction_at(&mut d, &select(7, "score_team_b", "1"), before());
    wcp::commands::set_match_score(&mut d, "125839485729304958", 1, 1).unwrap();
    let after_kickoff = Moment { secs: KICKOFF + 7200, nanos: 0 };
    let (desc, color, clear, _) = card(handle_interaction_at(&mut d, &lock(7), after_kickoff));
    assert_eq!(desc, "*Predictions are Locked.\nThe match has started.*\n\n");
    assert_eq!(color, LOCKED_COLOR);
    assert!(clear);
    assert!(d.finalized.get(&MSG).is_none());
    let (_, _, clear2, _) = card(handle_interaction_at(&mut d, &select(8, "score_team_a", "3"), before()));
    assert!(clear2);
    assert!(d.drafts[&MSG].get(&8).is_none());
}

#[test]
fn empty_selection_is_reported() {
    let mut d = open_data();
    let i = Interaction { message_id: MSG, user_id: 7, custom_id: "score_team_a".to_string(), selected: Some(vec![]) };
    assert!(matches!(handle_interaction_at(&mut d, &i, before()), Reply::MissingSelection));
    assert!(d.drafts.get(&MSG).is_none());
}

#[test]
fn non_select_component_with_score_id_only_acknowledges() {
    let mut d = open_data();
    let i = Interaction { message_id: MSG, user_id: 7, custom_id: "score_team_a".to_string(), selected: None };
    assert!(matches!(handle_interaction_at(&mut d, &i, before()), Reply::Acknowledge { warning: None }));
    assert!(d.drafts.get(&MSG).is_none());
}

#[test]
fn poll_without_kickoff_entry_takes_predictions_without_header() {
    let mut d = Data::new();
    handle_interaction_at(&mut d, &select(7, "score_team_a", "1"), before());
    handle_interaction_at(&mut d, &select(7, "score_team_b", "0"), before());
    let (desc, _, _, _) = card(handle_interaction_at(&mut d, &lock(7), before()));
    assert_eq!(desc, "**Predictions:**\n> <@7> : **1** - **0**\n");
}

#[test]
fn clock_based_handling() {
    let mut d = Data::new();
    d.open_poll(MSG, 0);
    let (desc, _, _, _) = card(handle_interaction(&mut d, &lock(7)));
    assert!(desc.starts_with("*Predictions are Locked."));
    let mut d = Data::new();
    d.open_poll(MSG, i64::MAX);
    assert!(matches!(handle_interaction(&mut d, &select(7, "score_team_a", "3")), Reply::Acknowledge { warning: None }));
    assert_eq!(d.drafts[&MSG][&7].goals_for_team_a, Some(3));
}
