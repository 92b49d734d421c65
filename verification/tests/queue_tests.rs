use spotterm::json::JsonValue;
use spotterm::playback::{ImageRef, Playable};
use spotterm::queue::{
    build_queue_state, degrade_on_failure, pane_message, playable_to_row, queue_numbers,
    QueueRow, QueueState, UserQueue, MAX_QUEUE_FAILURES,
};

fn upcoming(title: &str) -> QueueRow {
    QueueRow { title: title.to_string(), artists: "Artist".to_string(), is_current: false }
}

#[test]
fn build_queue_state_empty_reports_empty_message() {
    let state = build_queue_state(UserQueue { currently_playing: None, queue: Vec::new() });
    assert!(state.rows.is_empty());
    assert_eq!(state.message.as_deref(), Some("Queue is empty"));
    assert_eq!(state.failures, 0);
}

#[test]
fn transient_failure_keeps_last_good_rows() {
    let mut state = QueueState { rows: vec![upcoming("Song")], message: None, failures: 0 };
    degrade_on_failure(&mut state, "boom".to_string());
    assert_eq!(state.rows.len(), 1);
    assert!(state.message.is_none());
    assert_eq!(state.failures, 1);
}

#[test]
fn persistent_failure_escalates_to_visible_message() {
    let mut state = QueueState { rows: vec![upcoming("Song")], message: None, failures: 0 };
    for _ in 0..MAX_QUEUE_FAILURES {
        degrade_on_failure(&mut state, "boom".to_string());
    }
    assert!(state.rows.is_empty());
    let message = state.message.expect("message set after threshold");
    assert!(message.contains("queue unavailable"));
    assert!(message.contains("boom"));
}

#[test]
fn build_queue_state_always_starts_from_zero_failures() {
    let rebuilt = build_queue_state(UserQueue { currently_playing: None, queue: Vec::new() });
    assert_eq!(rebuilt.failures, 0);
}

fn track(name: &str) -> Playable {
    Playable::Track {
        name: name.to_string(),
        artists: vec!["X".to_string()],
        album: "Al".to_string(),
        duration_ms: 1,
        uri: None,
        images: vec![ImageRef { url: "u".to_string(), width: None, height: None }],
    }
}

#[test]
fn current_track_leads_and_upcoming_rows_are_numbered() {
    let state = build_queue_state(UserQueue {
        currently_playing: Some(track("now")),
        queue: vec![
            track("next"),
            Playable::Episode { name: "ep".to_string(), duration_ms: 1 },
            Playable::Unknown(JsonValue::Object(vec![("name".to_string(), JsonValue::Str("raw".to_string()))])),
        ],
    });
    assert!(state.message.is_none());
    assert_eq!(state.rows.len(), 4);
    assert!(state.rows[0].is_current);
    assert_eq!(state.rows[2].artists, "(podcast)");
    assert_eq!(state.rows[3].title, "raw");
    assert_eq!(state.rows[3].artists, "(unknown artist)");
    assert_eq!(queue_numbers(&state.rows), vec![None, Some(1), Some(2), Some(3)]);
    assert_eq!(pane_message(&state), None);
    let row = playable_to_row(track("solo"), true);
    assert_eq!((row.title.as_str(), row.artists.as_str(), row.is_current), ("solo", "X", true));
}

#[test]
fn default_queue_says_loading() {
    let q = QueueState::default();
    assert_eq!(pane_message(&q).as_deref(), Some("Loading…"));
}
