use sparkling::domain::value_objects::{CardStatus, CardStatusError};

#[test]
fn test_roundtrip() {
    for status in [
        CardStatus::Drafted,
        CardStatus::Triaged,
        CardStatus::Closed,
        CardStatus::NotNow,
        CardStatus::Published,
    ] {
        let s = status.as_str();
        let parsed = CardStatus::from_str(s);
        assert_eq!(parsed, Ok(status));
    }
}

#[test]
fn test_is_active() {
    assert!(CardStatus::Drafted.is_active());
    assert!(CardStatus::Triaged.is_active());
    assert!(CardStatus::Published.is_active());
    assert!(!CardStatus::Closed.is_active());
    assert!(!CardStatus::NotNow.is_active());
}

#[test]
fn status_names_are_the_stored_ones() {
    assert_eq!(CardStatus::Drafted.as_str(), "drafted");
    assert_eq!(CardStatus::Triaged.as_str(), "triaged");
    assert_eq!(CardStatus::Closed.as_str(), "closed");
    assert_eq!(CardStatus::NotNow.as_str(), "not_now");
    assert_eq!(CardStatus::Published.as_str(), "published");
}

#[test]
fn unknown_status_name_is_rejected() {
    assert_eq!(CardStatus::from_str("Drafted"), Err(CardStatusError));
    assert_eq!(CardStatus::from_str(""), Err(CardStatusError));
    assert_eq!(CardStatus::from_str("not now"), Err(CardStatusError));
    assert_eq!(CardStatusError.to_string(), "invalid card status");
}

#[test]
fn status_display_names() {
    assert_eq!(CardStatus::Drafted.display_name(), "Draft");
    assert_eq!(CardStatus::Triaged.display_name(), "Active");
    assert_eq!(CardStatus::Closed.display_name(), "Closed");
    assert_eq!(CardStatus::NotNow.display_name(), "Postponed");
    assert_eq!(CardStatus::Published.display_name(), "Published");
    assert_eq!(CardStatus::NotNow.to_string(), "Postponed");
    assert_eq!(CardStatus::Closed.emoji(), "\u{2705}");
    assert_eq!(CardStatus::default(), CardStatus::Drafted);
}
