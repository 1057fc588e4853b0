use belfry_core::db::domain::{EpisodeType, InboxPolicy, PlayedState};
use belfry_core::errors::Error;

#[test]
fn played_state_round_trip() {
    for state in [
        PlayedState::Unplayed,
        PlayedState::InProgress,
        PlayedState::PlayedFully,
        PlayedState::ArchivedUnlistened,
    ] {
        assert_eq!(PlayedState::from_i64(state as i64), Some(state));
    }
    assert_eq!(PlayedState::from_i64(99), None);
}

#[test]
fn inbox_policy_str_round_trip() {
    for policy in [
        InboxPolicy::Inbox,
        InboxPolicy::AlwaysQueue,
        InboxPolicy::AlwaysArchive,
    ] {
        let parsed: InboxPolicy = policy.as_str().parse().unwrap();
        assert_eq!(parsed, policy);
    }
    assert!(matches!(
        "nonsense".parse::<InboxPolicy>(),
        Err(Error::InvalidEnum { .. })
    ));
}

#[test]
fn inbox_policy_default_is_inbox() {
    assert_eq!(InboxPolicy::default(), InboxPolicy::Inbox);
}

#[test]
fn episode_type_str_round_trip() {
    for ep_type in [EpisodeType::Full, EpisodeType::Trailer, EpisodeType::Bonus] {
        let parsed: EpisodeType = ep_type.as_str().parse().unwrap();
        assert_eq!(parsed, ep_type);
    }
    assert!(matches!(
        "invalid".parse::<EpisodeType>(),
        Err(Error::InvalidEnum { .. })
    ));
}

#[test]
fn stored_words_are_the_documented_ones() {
    assert_eq!(EpisodeType::Full.as_str(), "full");
    assert_eq!(EpisodeType::Trailer.as_str(), "trailer");
    assert_eq!(EpisodeType::Bonus.as_str(), "bonus");
    assert_eq!(InboxPolicy::Inbox.as_str(), "inbox");
    assert_eq!(InboxPolicy::AlwaysQueue.as_str(), "always_queue");
    assert_eq!(InboxPolicy::AlwaysArchive.as_str(), "always_archive");
}

#[test]
fn invalid_enum_names_field_and_value() {
    match EpisodeType::try_from_str("Full") {
        Err(Error::InvalidEnum { field, value }) => {
            assert_eq!(field, "episode_type");
            assert_eq!(value, "Full");
        }
        other => panic!("unexpected {other:?}"),
    }
    match InboxPolicy::try_from_str("") {
        Err(Error::InvalidEnum { field, value }) => {
            assert_eq!(field, "inbox_policy");
            assert_eq!(value, "");
        }
        other => panic!("unexpected {other:?}"),
    }
}

#[test]
fn played_state_codes_and_bounds() {
    assert_eq!(PlayedState::Unplayed.as_i64(), 0);
    assert_eq!(PlayedState::InProgress.as_i64(), 1);
    assert_eq!(PlayedState::PlayedFully.as_i64(), 2);
    assert_eq!(PlayedState::ArchivedUnlistened.as_i64(), 3);
    assert_eq!(PlayedState::from_i64(-1), None);
    assert_eq!(PlayedState::from_i64(4), None);
    assert_eq!(PlayedState::from_i64(3), Some(PlayedState::ArchivedUnlistened));
}
