use wcp::commands::{goal_options, poll_about, poll_card, poll_help, poll_match, CommandError, MAX_GOALS, POLL_COLOR};
use wcp::interactions::selection_value_of;

#[test]
fn goal_options_cover_zero_to_ten() {
    let opts = goal_options();
    assert_eq!(opts.len(), MAX_GOALS as usize + 1);
    assert_eq!(opts[0].label, "0 Goals");
    assert_eq!(opts[1].label, "1 Goal");
    assert_eq!(opts[2].label, "2 Goals");
    assert_eq!(opts[10].label, "10 Goals");
    for (i, o) in opts.iter().enumerate() {
        assert_eq!(o.value, i.to_string());
    }
}

#[test]
fn goal_option_values_read_back_law() {
    for (i, o) in goal_options().iter().enumerate() {
        assert_eq!(selection_value_of(&o.value) as usize, i);
    }
}

#[test]
fn poll_match_reads_the_kickoff_as_utc() {
    let card = poll_match("🇲🇦 Morocco", "🇫🇷 France", "2026/06/25 18:00").unwrap();
    assert_eq!(card.start_time, 1782410400);
    assert_eq!(card.title, "**🇲🇦 Morocco** vs. **🇫🇷 France**");
    assert_eq!(
        card.description,
        "Select your score prediction\n\n**Match Starts:** <t:1782410400:R>\n\n*No predictions yet.*"
    );
    assert_eq!(card.color, POLL_COLOR);
    assert_eq!(card.color, 0xFF0000);
    assert_eq!(card.menu_a_id, "score_team_a");
    assert_eq!(card.menu_b_id, "score_team_b");
    assert_eq!(card.menu_a_placeholder, "🇲🇦 Morocco Score");
    assert_eq!(card.menu_b_placeholder, "🇫🇷 France Score");
    assert_eq!(card.lock_id, "lock_prediction");
    assert_eq!(card.lock_label, "Lock In Score");
    assert_eq!(card.options.len(), 11);
}

#[test]
fn poll_match_accepts_unpadded_fields() {
    let card = poll_match("A", "B", "2026/6/20 18:00").unwrap();
    assert_eq!(card.start_time, 1781978400);
}

#[test]
fn poll_match_refuses_other_formats() {
    for k in ["25/06/2026 18:00", "2026-06-25 18:00", "2026/06/25", "2026/06/25 25:00", "", "2026/02/30 10:00"] {
        match poll_match("A", "B", k) {
            Err(e) => assert_eq!(e, CommandError::InvalidKickoff),
            Ok(_) => panic!("accepted {k:?}"),
        }
    }
    assert_eq!(
        CommandError::InvalidKickoff.message(),
        "Please use YYYY/MM/DD HH:MM e.g. (2026/6/20 18:00)"
    );
    assert_eq!(CommandError::InvalidMessageId.message(), "invalid Message ID format.");
}

#[test]
fn poll_card_before_the_epoch() {
    let card = poll_card("A", "B", -60);
    assert_eq!(
        card.description,
        "Select your score prediction\n\n**Match Starts:** <t:-60:R>\n\n*No predictions yet.*"
    );
}

#[test]
fn info_cards() {
    let a = poll_about();
    assert_eq!(a.title, "World Cup Polls");
    assert_eq!(a.footer, "By Censera");
    assert_eq!(a.color, 0xff0069);
    assert!(a.ephemeral);
    assert!(a.description.starts_with("A bot for tracking live World Cup score predictions."));
    let h = poll_help();
    assert_eq!(h.title, "World Cup Polls");
    assert_eq!(h.footer, "Contact @Censera for any issues");
    assert!(h.description.starts_with("**Recommaneded Format**\n"));
    assert!(h.ephemeral);
}
