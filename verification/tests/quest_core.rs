//! End-to-end tests of the quest core: lifecycle, roster capacity,
//! ownership, and the board projections.

use quests_tracker::crew_switchboard::{CrewSwitchboardUseCase, MAX_ADVENTURERS_PER_QUEST};
use quests_tracker::errors::QuestError;
use quests_tracker::journey_ledger::JourneyLedgerUseCase;
use quests_tracker::quest_model::{AddQuestModel, BoardCheckingFilter, EditQuestModel};
use quests_tracker::quest_ops::QuestOpsUseCase;
use quests_tracker::quest_statuses::QuestStatus;
use quests_tracker::quest_viewing::QuestViewingUseCase;
use quests_tracker::store::GuildStore;

fn add_model(name: &str, owner: i32) -> AddQuestModel {
    AddQuestModel {
        name: name.to_owned(),
        description: Some("a quest".to_owned()),
        guild_commander_id: owner,
    }
}

fn new_quest(store: &mut GuildStore, name: &str, owner: i32) -> i32 {
    let ops = QuestOpsUseCase::new();
    ops.add(store, owner, add_model(name, owner))
        .expect("creation with a well-formed model succeeds")
}

#[test]
fn add_assigns_fresh_ids_and_open_status() {
    let mut store = GuildStore::new();
    let viewing = QuestViewingUseCase::new();
    let first = new_quest(&mut store, "Slay the dragon", 7);
    let second = new_quest(&mut store, "Escort the caravan", 7);
    assert_eq!(first, 1);
    assert_eq!(second, 2);
    let q = viewing.view_details(&store, first).unwrap();
    assert_eq!(q.id, 1);
    assert_eq!(q.name, "Slay the dragon");
    assert_eq!(q.description.as_deref(), Some("a quest"));
    assert!(q.status == QuestStatus::Open);
    assert_eq!(q.guild_commander_id, 7);
    assert!(!q.deleted);
}

#[test]
fn add_rejects_malformed_models() {
    let mut store = GuildStore::new();
    let ops = QuestOpsUseCase::new();
    let empty = AddQuestModel {
        name: String::new(),
        description: None,
        guild_commander_id: 7,
    };
    assert_eq!(ops.add(&mut store, 7, empty), Err(QuestError::ValidationError));
    let overlong = AddQuestModel {
        name: "x".repeat(256),
        description: None,
        guild_commander_id: 7,
    };
    assert_eq!(ops.add(&mut store, 7, overlong), Err(QuestError::ValidationError));
    let at_limit = AddQuestModel {
        name: "x".repeat(255),
        description: None,
        guild_commander_id: 7,
    };
    assert_eq!(ops.add(&mut store, 7, at_limit), Ok(1));
}

#[test]
fn join_increases_count_by_one() {
    let mut store = GuildStore::new();
    let crew = CrewSwitchboardUseCase::new(3);
    let viewing = QuestViewingUseCase::new();
    let quest = new_quest(&mut store, "Clear the mine", 7);
    assert_eq!(viewing.adventurer_count(&store, quest), 0);
    assert_eq!(crew.join(&mut store, quest, 100), Ok(quest));
    assert_eq!(viewing.adventurer_count(&store, quest), 1);
    assert_eq!(crew.join(&mut store, quest, 101), Ok(quest));
    assert_eq!(viewing.adventurer_count(&store, quest), 2);
}

#[test]
fn duplicate_join_is_rejected_not_absorbed() {
    let mut store = GuildStore::new();
    let crew = CrewSwitchboardUseCase::new(3);
    let viewing = QuestViewingUseCase::new();
    let quest = new_quest(&mut store, "Clear the mine", 7);
    assert_eq!(crew.join(&mut store, quest, 100), Ok(quest));
    assert_eq!(crew.join(&mut store, quest, 100), Err(QuestError::AlreadyMember));
    assert_eq!(viewing.adventurer_count(&store, quest), 1);
}

#[test]
fn join_on_missing_quest_fails_not_found() {
    let mut store = GuildStore::new();
    let crew = CrewSwitchboardUseCase::new(3);
    assert_eq!(crew.join(&mut store, 42, 100), Err(QuestError::NotFound));
    assert_eq!(crew.leave(&mut store, 42, 100), Err(QuestError::NotFound));
}

#[test]
fn full_quest_rejects_joins_whatever_the_status() {
    let mut store = GuildStore::new();
    let crew = CrewSwitchboardUseCase::new(1);
    let ledger = JourneyLedgerUseCase::new();
    let quest = new_quest(&mut store, "Hold the bridge", 7);
    assert_eq!(crew.join(&mut store, quest, 100), Ok(quest));
    // Full while Open.
    assert_eq!(crew.join(&mut store, quest, 101), Err(QuestError::QuestFull));
    // Full while Failed: capacity still takes precedence over status.
    assert_eq!(ledger.in_journey(&mut store, quest, 7), Ok(quest));
    assert_eq!(ledger.to_failed(&mut store, quest, 7), Ok(quest));
    assert_eq!(crew.join(&mut store, quest, 101), Err(QuestError::QuestFull));
}

#[test]
fn roster_is_locked_while_in_journey_or_completed() {
    let mut store = GuildStore::new();
    let crew = CrewSwitchboardUseCase::new(3);
    let ledger = JourneyLedgerUseCase::new();
    let quest = new_quest(&mut store, "Scout the pass", 7);
    assert_eq!(crew.join(&mut store, quest, 100), Ok(quest));
    assert_eq!(ledger.in_journey(&mut store, quest, 7), Ok(quest));
    assert_eq!(crew.join(&mut store, quest, 101), Err(QuestError::QuestNotJoinable));
    assert_eq!(crew.leave(&mut store, quest, 100), Err(QuestError::QuestNotLeaveable));
    assert_eq!(ledger.to_completed(&mut store, quest, 7), Ok(quest));
    assert_eq!(crew.join(&mut store, quest, 101), Err(QuestError::QuestNotJoinable));
    assert_eq!(crew.leave(&mut store, quest, 100), Err(QuestError::QuestNotLeaveable));
}

#[test]
fn leave_then_rejoin_leaves_no_residue() {
    let mut store = GuildStore::new();
    let crew = CrewSwitchboardUseCase::new(2);
    let viewing = QuestViewingUseCase::new();
    let quest = new_quest(&mut store, "Watch the walls", 7);
    assert_eq!(crew.join(&mut store, quest, 100), Ok(quest));
    assert_eq!(crew.leave(&mut store, quest, 100), Ok(quest));
    assert_eq!(viewing.adventurer_count(&store, quest), 0);
    assert_eq!(crew.join(&mut store, quest, 100), Ok(quest));
    assert_eq!(viewing.adventurer_count(&store, quest), 1);
}

#[test]
fn leave_without_membership_fails_not_member() {
    let mut store = GuildStore::new();
    let crew = CrewSwitchboardUseCase::new(2);
    let quest = new_quest(&mut store, "Watch the walls", 7);
    assert_eq!(crew.leave(&mut store, quest, 100), Err(QuestError::NotMember));
}

#[test]
fn surplus_joins_fill_exactly_to_capacity() {
    let mut store = GuildStore::new();
    let crew = CrewSwitchboardUseCase::new(MAX_ADVENTURERS_PER_QUEST);
    let viewing = QuestViewingUseCase::new();
    let quest = new_quest(&mut store, "Storm the keep", 7);
    let attempts = MAX_ADVENTURERS_PER_QUEST + 3;
    let mut successes = 0;
    let mut full_failures = 0;
    for adventurer in 0..attempts {
        match crew.join(&mut store, quest, 1000 + adventurer as i32) {
            Ok(id) => {
                assert_eq!(id, quest);
                successes += 1;
            }
            Err(e) => {
                assert_eq!(e, QuestError::QuestFull);
                full_failures += 1;
            }
        }
    }
    assert_eq!(successes, MAX_ADVENTURERS_PER_QUEST);
    assert_eq!(full_failures, 3);
    assert_eq!(viewing.adventurer_count(&store, quest), MAX_ADVENTURERS_PER_QUEST);
}

#[test]
fn in_journey_succeeds_only_from_open() {
    let mut store = GuildStore::new();
    let ledger = JourneyLedgerUseCase::new();
    let viewing = QuestViewingUseCase::new();
    let quest = new_quest(&mut store, "Chart the coast", 7);
    assert_eq!(ledger.in_journey(&mut store, quest, 8), Ok(quest));
    // The acting commander became the owner of record.
    let q = viewing.view_details(&store, quest).unwrap();
    assert!(q.status == QuestStatus::InJourney);
    assert_eq!(q.guild_commander_id, 8);
    // A second take fails with a stale precondition.
    assert_eq!(ledger.in_journey(&mut store, quest, 8), Err(QuestError::InvalidTransition));
}

#[test]
fn terminal_transitions_need_in_journey() {
    let mut store = GuildStore::new();
    let ledger = JourneyLedgerUseCase::new();
    let quest = new_quest(&mut store, "Chart the coast", 7);
    assert_eq!(ledger.to_completed(&mut store, quest, 7), Err(QuestError::InvalidTransition));
    assert_eq!(ledger.to_failed(&mut store, quest, 7), Err(QuestError::InvalidTransition));
    assert_eq!(ledger.in_journey(&mut store, quest, 7), Ok(quest));
    assert_eq!(ledger.to_completed(&mut store, quest, 7), Ok(quest));
    assert_eq!(ledger.in_journey(&mut store, quest, 7), Err(QuestError::InvalidTransition));
    assert_eq!(ledger.to_failed(&mut store, quest, 7), Err(QuestError::InvalidTransition));
}

#[test]
fn transitions_on_missing_quest_fail_not_found() {
    let mut store = GuildStore::new();
    let ledger = JourneyLedgerUseCase::new();
    assert_eq!(ledger.in_journey(&mut store, 5, 7), Err(QuestError::NotFound));
    assert_eq!(ledger.to_completed(&mut store, 5, 7), Err(QuestError::NotFound));
    assert_eq!(ledger.to_failed(&mut store, 5, 7), Err(QuestError::NotFound));
}

#[test]
fn capacity_two_quest_runs_its_course() {
    // Quest with capacity 2: two joins succeed, the third is full, the
    // journey starts, and the crew is locked in.
    let mut store = GuildStore::new();
    let crew = CrewSwitchboardUseCase::new(2);
    let ledger = JourneyLedgerUseCase::new();
    let viewing = QuestViewingUseCase::new();
    let quest = new_quest(&mut store, "Raid the tomb", 7);
    assert_eq!(crew.join(&mut store, quest, 1), Ok(quest));
    assert_eq!(viewing.adventurer_count(&store, quest), 1);
    assert_eq!(crew.join(&mut store, quest, 2), Ok(quest));
    assert_eq!(viewing.adventurer_count(&store, quest), 2);
    assert_eq!(crew.join(&mut store, quest, 3), Err(QuestError::QuestFull));
    assert_eq!(ledger.in_journey(&mut store, quest, 7), Ok(quest));
    assert_eq!(crew.leave(&mut store, quest, 1), Err(QuestError::QuestNotLeaveable));
}

#[test]
fn failed_quest_reopens_its_roster() {
    // A quest in journey fails; the crew may reshuffle while it stands
    // Failed.
    let mut store = GuildStore::new();
    let crew = CrewSwitchboardUseCase::new(3);
    let ledger = JourneyLedgerUseCase::new();
    let viewing = QuestViewingUseCase::new();
    let quest = new_quest(&mut store, "Cross the marsh", 7);
    assert_eq!(crew.join(&mut store, quest, 1), Ok(quest));
    assert_eq!(ledger.in_journey(&mut store, quest, 7), Ok(quest));
    assert_eq!(crew.leave(&mut store, quest, 1), Err(QuestError::QuestNotLeaveable));
    assert_eq!(ledger.to_failed(&mut store, quest, 7), Ok(quest));
    let q = viewing.view_details(&store, quest).unwrap();
    assert!(q.status == QuestStatus::Failed);
    assert_eq!(crew.leave(&mut store, quest, 1), Ok(quest));
    assert_eq!(crew.join(&mut store, quest, 2), Ok(quest));
    assert_eq!(viewing.adventurer_count(&store, quest), 1);
}

#[test]
fn edit_is_gated_on_ownership() {
    let mut store = GuildStore::new();
    let ops = QuestOpsUseCase::new();
    let viewing = QuestViewingUseCase::new();
    let quest = new_quest(&mut store, "Old name", 7);
    let intruder_edit = EditQuestModel {
        name: "Hijacked".to_owned(),
        description: None,
        guild_commander_id: 8,
    };
    assert_eq!(ops.edit(&mut store, quest, 8, intruder_edit), Err(QuestError::Forbidden));
    let q = viewing.view_details(&store, quest).unwrap();
    assert_eq!(q.name, "Old name");
    let owner_edit = EditQuestModel {
        name: "New name".to_owned(),
        description: Some("sharper brief".to_owned()),
        guild_commander_id: 7,
    };
    assert_eq!(ops.edit(&mut store, quest, 7, owner_edit), Ok(quest));
    let q = viewing.view_details(&store, quest).unwrap();
    assert_eq!(q.name, "New name");
    assert_eq!(q.description.as_deref(), Some("sharper brief"));
}

#[test]
fn remove_is_gated_on_ownership_and_soft_deletes() {
    let mut store = GuildStore::new();
    let ops = QuestOpsUseCase::new();
    let crew = CrewSwitchboardUseCase::new(2);
    let viewing = QuestViewingUseCase::new();
    let quest = new_quest(&mut store, "Burn the records", 7);
    assert_eq!(ops.remove(&mut store, quest, 8), Err(QuestError::Forbidden));
    assert_eq!(ops.remove(&mut store, quest, 7), Ok(quest));
    // Once soft-deleted, the quest is invisible to every operation.
    assert_eq!(viewing.view_details(&store, quest).unwrap_err(), QuestError::NotFound);
    assert_eq!(crew.join(&mut store, quest, 1), Err(QuestError::NotFound));
    assert_eq!(ops.remove(&mut store, quest, 7), Err(QuestError::NotFound));
    let stale_edit = EditQuestModel {
        name: "Too late".to_owned(),
        description: None,
        guild_commander_id: 7,
    };
    assert_eq!(ops.edit(&mut store, quest, 7, stale_edit), Err(QuestError::NotFound));
}

#[test]
fn edit_and_remove_on_missing_quest_fail_not_found() {
    let mut store = GuildStore::new();
    let ops = QuestOpsUseCase::new();
    let ghost_edit = EditQuestModel {
        name: "Nobody home".to_owned(),
        description: None,
        guild_commander_id: 7,
    };
    assert_eq!(ops.edit(&mut store, 9, 7, ghost_edit), Err(QuestError::NotFound));
    assert_eq!(ops.remove(&mut store, 9, 7), Err(QuestError::NotFound));
}

#[test]
fn board_checking_filters_by_status_and_owner() {
    let mut store = GuildStore::new();
    let ops = QuestOpsUseCase::new();
    let ledger = JourneyLedgerUseCase::new();
    let viewing = QuestViewingUseCase::new();
    let a = new_quest(&mut store, "Quest of Ann", 7);
    let b = new_quest(&mut store, "Quest of Bob", 8);
    let c = new_quest(&mut store, "Gone quest", 7);
    assert_eq!(ledger.in_journey(&mut store, b, 8), Ok(b));
    assert_eq!(ops.remove(&mut store, c, 7), Ok(c));

    let everything = BoardCheckingFilter { status: None, guild_commander_id: None };
    let board = viewing.board_checking(&store, &everything);
    // The soft-deleted quest is off the board.
    assert_eq!(board.len(), 2);
    assert_eq!(board[0].id, a);
    assert_eq!(board[1].id, b);

    let open_only = BoardCheckingFilter { status: Some(QuestStatus::Open), guild_commander_id: None };
    let board = viewing.board_checking(&store, &open_only);
    assert_eq!(board.len(), 1);
    assert_eq!(board[0].id, a);

    let by_owner = BoardCheckingFilter { status: None, guild_commander_id: Some(8) };
    let board = viewing.board_checking(&store, &by_owner);
    assert_eq!(board.len(), 1);
    assert_eq!(board[0].id, b);

    let nobody = BoardCheckingFilter { status: Some(QuestStatus::Completed), guild_commander_id: None };
    assert!(viewing.board_checking(&store, &nobody).is_empty());
}

#[test]
fn view_details_misses_are_not_found() {
    let store = GuildStore::new();
    let viewing = QuestViewingUseCase::new();
    assert_eq!(viewing.view_details(&store, 1).unwrap_err(), QuestError::NotFound);
}

#[test]
fn counts_are_kept_per_quest() {
    let mut store = GuildStore::new();
    let crew = CrewSwitchboardUseCase::new(5);
    let viewing = QuestViewingUseCase::new();
    let a = new_quest(&mut store, "First", 7);
    let b = new_quest(&mut store, "Second", 7);
    assert_eq!(crew.join(&mut store, a, 1), Ok(a));
    assert_eq!(crew.join(&mut store, a, 2), Ok(a));
    assert_eq!(crew.join(&mut store, b, 1), Ok(b));
    assert_eq!(viewing.adventurer_count(&store, a), 2);
    assert_eq!(viewing.adventurer_count(&store, b), 1);
    assert_eq!(crew.leave(&mut store, a, 1), Ok(a));
    assert_eq!(viewing.adventurer_count(&store, a), 1);
    assert_eq!(viewing.adventurer_count(&store, b), 1);
}
