use hifumi::models::{Status, StatusType};
use hifumi::presence::{
    next_status_action, random_element_vec, random_int_from_range, status_step, StatusAction,
    MAX_STATUS_SECS, MIN_STATUS_SECS,
};

fn entries() -> Vec<Status> {
    vec![
        Status { id: 1, kind: StatusType::Watching, status: "Star Wars".to_string() },
        Status { id: 2, kind: StatusType::Playing, status: "with Rust".to_string() },
        Status { id: 3, kind: StatusType::Custom, status: "hi".to_string() },
    ]
}

#[test]
fn empty_list_stops_at_once() {
    let statuses: Vec<Status> = Vec::new();
    assert!(matches!(next_status_action(&statuses), StatusAction::Stop));
}

#[test]
fn sleep_interval_stays_in_bounds() {
    let statuses = entries();
    for _ in 0..500 {
        match next_status_action(&statuses) {
            StatusAction::Apply { kind, text, sleep_secs } => {
                assert!((300..=900).contains(&sleep_secs));
                assert!(statuses.iter().any(|s| s.kind == kind && s.status == text));
            }
            StatusAction::Stop => panic!("entries were available"),
        }
    }
}

#[test]
fn bounds_are_five_and_fifteen_minutes() {
    assert_eq!(MIN_STATUS_SECS, 300);
    assert_eq!(MAX_STATUS_SECS, 900);
}

#[test]
fn random_int_in_inclusive_range() {
    for _ in 0..200 {
        let r = random_int_from_range(300, 900);
        assert!(r >= 300 && r <= 900);
    }
    assert_eq!(random_int_from_range(7, 7), 7);
}

#[test]
fn random_element_of_empty_and_non_empty() {
    let empty: [u32; 0] = [];
    assert_eq!(random_element_vec(&empty), None);
    let items = [1, 2, 3, 4, 5];
    for _ in 0..100 {
        let r = random_element_vec(&items).unwrap();
        assert!(items.contains(&r));
    }
}

#[test]
fn step_uses_drawn_entry_and_time() {
    let statuses = entries();
    match status_step(Some(&statuses[1]), 450) {
        StatusAction::Apply { kind, text, sleep_secs } => {
            assert_eq!(kind, StatusType::Playing);
            assert_eq!(text, "with Rust");
            assert_eq!(sleep_secs, 450);
        }
        StatusAction::Stop => panic!("an entry was drawn"),
    }
    assert!(matches!(status_step(None, 450), StatusAction::Stop));
}

#[test]
fn status_type_reads_any_case() {
    assert_eq!(StatusType::from("WATCHING".to_string()), StatusType::Watching);
    assert_eq!(StatusType::from("Listening".to_string()), StatusType::Listening);
    assert_eq!(StatusType::from("playing".to_string()), StatusType::Playing);
    assert_eq!(StatusType::from("Competing".to_string()), StatusType::Competing);
    assert_eq!(StatusType::from("CUSTOM".to_string()), StatusType::Custom);
    assert_eq!(StatusType::from("streaming".to_string()), StatusType::Playing);
    assert_eq!(StatusType::parse(""), StatusType::Playing);
}

#[test]
fn lowercase_kind_names() {
    assert_eq!(StatusType::status_type_of_lower("watching"), StatusType::Watching);
    assert_eq!(StatusType::status_type_of_lower("listening"), StatusType::Listening);
    assert_eq!(StatusType::status_type_of_lower("competing"), StatusType::Competing);
    assert_eq!(StatusType::status_type_of_lower("custom"), StatusType::Custom);
    assert_eq!(StatusType::status_type_of_lower("Watching"), StatusType::Playing);
    assert_eq!(StatusType::status_type_of_lower("streaming"), StatusType::Playing);
}
