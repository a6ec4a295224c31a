//! Tests of the textual faces of the core's enumerations and errors.

use quests_tracker::errors::QuestError;
use quests_tracker::quest_statuses::QuestStatus;
use quests_tracker::stage::Stage;

#[test]
fn quest_status_names_round_trip() {
    let statuses = [
        QuestStatus::Open,
        QuestStatus::InJourney,
        QuestStatus::Completed,
        QuestStatus::Failed,
    ];
    for status in statuses {
        let name = status.name();
        assert_eq!(QuestStatus::parse(name), Some(status));
    }
    assert_eq!(QuestStatus::parse("Open").unwrap().name(), "Open");
    assert_eq!(QuestStatus::parse("InJourney").unwrap().name(), "InJourney");
    assert_eq!(QuestStatus::parse("Completed").unwrap().name(), "Completed");
    assert_eq!(QuestStatus::parse("Failed").unwrap().name(), "Failed");
}

#[test]
fn quest_status_parse_rejects_strangers() {
    assert_eq!(QuestStatus::parse(""), None);
    assert_eq!(QuestStatus::parse("open"), None);
    assert_eq!(QuestStatus::parse("InJourney "), None);
    assert_eq!(QuestStatus::parse("Abandoned"), None);
}

#[test]
fn quest_status_defaults_to_open() {
    assert_eq!(QuestStatus::default(), QuestStatus::Open);
    assert!(QuestStatus::Open.roster_changeable());
    assert!(QuestStatus::Failed.roster_changeable());
    assert!(!QuestStatus::InJourney.roster_changeable());
    assert!(!QuestStatus::Completed.roster_changeable());
}

#[test]
fn stage_names_round_trip() {
    for stage in [Stage::Local, Stage::Development, Stage::Production] {
        assert_eq!(Stage::parse(stage.name()), Some(stage));
        assert_eq!(Stage::parse_or_default(stage.name()), stage);
    }
    assert_eq!(Stage::parse("production"), None);
    assert_eq!(Stage::parse_or_default(""), Stage::Development);
    assert_eq!(Stage::parse_or_default("anything"), Stage::Development);
    assert_eq!(Stage::default(), Stage::Development);
}

#[test]
fn error_kinds_carry_distinct_messages() {
    let kinds = [
        QuestError::NotFound,
        QuestError::ValidationError,
        QuestError::Forbidden,
        QuestError::QuestFull,
        QuestError::QuestNotJoinable,
        QuestError::QuestNotLeaveable,
        QuestError::AlreadyMember,
        QuestError::NotMember,
        QuestError::InvalidTransition,
        QuestError::StoreUnavailable,
    ];
    for (i, a) in kinds.iter().enumerate() {
        assert!(!a.message().is_empty());
        for b in kinds.iter().skip(i + 1) {
            assert_ne!(a.message(), b.message());
        }
    }
    assert_eq!(QuestError::QuestFull.message(), "quest roster is full");
    assert_eq!(QuestError::NotFound.message(), "quest not found");
}
