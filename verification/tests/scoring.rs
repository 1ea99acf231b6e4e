use wcp::commands::{set_match_score, CommandError};
use wcp::scoring::Settlement;
use wcp::types::{Data, FinalPrediction};

const MSG: u64 = 125839485729304958;

fn data_with(preds: &[(u64, u8, u8)]) -> Data {
    let mut d = Data::new();
    d.open_poll(MSG, 1782410400);
    for &(user, team_a, team_b) in preds {
        d.push_prediction(MSG, FinalPrediction { user, team_a, team_b });
    }
    d
}

#[test]
fn exact_outcome_and_wrong_predictions() {
    let mut d = data_with(&[(1, 2, 1), (2, 3, 0), (3, 0, 0), (4, 1, 2), (5, 2, 1)]);
    let r = set_match_score(&mut d, "125839485729304958", 2, 1).unwrap();
    assert_eq!(r.0, MSG);
    match r.1 {
        Settlement::Settled { reply, closed_title, closed_description, color } => {
            assert_eq!(
                reply,
                "### Match ended. Final Score: 2 - 1\n\nExact Score Winners:\n> <@1> (2-1), <@5> (2-1)\n\nCorrect Outcome Winners:\n> <@2> (3-0)\n"
            );
            assert_eq!(closed_title, "Ended");
            assert_eq!(closed_description, "This poll is closed.\nFinal Score: **2** - **1**");
            assert_eq!(color, 0xff0069);
        },
        _ => panic!("expected a settlement"),
    }
    assert_eq!(d.user_points[&1], 3);
    assert_eq!(d.user_points[&2], 1);
    assert_eq!(d.user_points[&5], 3);
    assert!(d.user_points.get(&3).is_none());
    assert!(d.user_points.get(&4).is_none());
    assert!(d.active_polls.get(&MSG).is_none());
    assert!(d.finalized.get(&MSG).is_none());
}

#[test]
fn draws_count_as_an_outcome() {
    let mut d = data_with(&[(1, 1, 1), (2, 0, 0), (3, 1, 0)]);
    match set_match_score(&mut d, "125839485729304958", 0, 0).unwrap().1 {
        Settlement::Settled { reply, .. } => assert_eq!(
            reply,
            "### Match ended. Final Score: 0 - 0\n\nExact Score Winners:\n> <@2> (0-0)\n\nCorrect Outcome Winners:\n> <@1> (1-1)\n"
        ),
        _ => panic!("expected a settlement"),
    }
    assert_eq!(d.user_points[&1], 1);
    assert_eq!(d.user_points[&2], 3);
}

#[test]
fn no_winners_sections() {
    let mut d = data_with(&[(1, 0, 3)]);
    match set_match_score(&mut d, "+125839485729304958", 2, 0).unwrap().1 {
        Settlement::Settled { reply, .. } => assert_eq!(
            reply,
            "### Match ended. Final Score: 2 - 0\n\nExact Score Winners:\n> *None* <:AHAHAHA:1517999261743054948>\n\nCorrect Outcome Winners:\n> *None* <:AHAHAHA:1517999261743054948>\n"
        ),
        _ => panic!("expected a settlement"),
    }
    assert!(d.user_points.is_empty());
}

#[test]
fn high_scores_compare_as_numbers() {
    let mut d = data_with(&[(1, 5, 0)]);
    set_match_score(&mut d, "125839485729304958", 200, 0).unwrap();
    assert_eq!(d.user_points[&1], 1);
}

#[test]
fn points_accumulate_over_matches() {
    let mut d = data_with(&[(1, 2, 1)]);
    set_match_score(&mut d, "125839485729304958", 2, 1).unwrap();
    d.open_poll(9, 0);
    d.push_prediction(9, FinalPrediction { user: 1, team_a: 1, team_b: 0 });
    set_match_score(&mut d, "9", 3, 0).unwrap();
    assert_eq!(d.user_points[&1], 4);
}

#[test]
fn closing_twice_awards_nothing_more() {
    let mut d = data_with(&[(1, 2, 1)]);
    set_match_score(&mut d, "125839485729304958", 2, 1).unwrap();
    match set_match_score(&mut d, "125839485729304958", 2, 1).unwrap().1 {
        Settlement::NoPredictions { reply, .. } => assert_eq!(reply, "No predictions were locked in for this match."),
        _ => panic!("expected no predictions"),
    }
    assert_eq!(d.user_points[&1], 3);
}

#[test]
fn closing_a_poll_without_predictions() {
    let mut d = data_with(&[]);
    match set_match_score(&mut d, "125839485729304958", 1, 1).unwrap().1 {
        Settlement::NoPredictions { reply, closed_title, closed_description, color } => {
            assert_eq!(reply, "No predictions were locked in for this match.");
            assert_eq!(closed_title, "Ended");
            assert_eq!(closed_description, "This poll is closed.\nFinal Score: **1** - **1**");
            assert_eq!(color, 0xff0069);
        },
        _ => panic!("expected no predictions"),
    }
    assert!(d.active_polls.get(&MSG).is_none());
    assert!(d.closed_polls.contains(&MSG));
}

#[test]
fn bad_message_id_changes_nothing() {
    let mut d = data_with(&[(1, 2, 1)]);
    for s in ["abc", "", "-5", "125839485729304958x"] {
        assert!(matches!(set_match_score(&mut d, s, 2, 1), Err(CommandError::InvalidMessageId)));
    }
    assert_eq!(d.finalized[&MSG].len(), 1);
    assert!(d.active_polls.get(&MSG).is_some());
}

#[test]
fn points_overflow_is_reported() {
    let mut d = data_with(&[(1, 2, 1)]);
    d.user_points.insert(1, u32::MAX - 2);
    assert!(matches!(set_match_score(&mut d, "125839485729304958", 2, 1).unwrap().1, Settlement::PointsOverflow));
    let mut d = data_with(&[(1, 2, 1)]);
    d.user_points.insert(1, u32::MAX - 3);
    set_match_score(&mut d, "125839485729304958", 2, 1).unwrap();
    assert_eq!(d.user_points[&1], u32::MAX);
}
