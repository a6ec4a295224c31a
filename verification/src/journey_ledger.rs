//! Lifecycle transitions: the status state machine of a quest.
//!
//! `Open -> InJourney -> { Completed, Failed }`.  Each transition is one
//! atomic conditional write filtered on the quest id and the expected
//! prior status, so two commanders racing to move the same quest cannot
//! both succeed on a stale precondition.  The acting commander becomes the
//! quest's owner of record on every transition.

use vstd::prelude::*;
use crate::errors::QuestError;
use crate::quest_statuses::QuestStatus;
use crate::store::{cond_update_check, cond_update_effect, GuildStore};

verus! {

/// Lifecycle transitions over the guild store.
pub struct JourneyLedgerUseCase {}

impl JourneyLedgerUseCase {
    /// A journey ledger.
    pub fn new() -> Self {
        JourneyLedgerUseCase {  }
    }

    /// Moves an `Open` quest into `InJourney` and attributes it to the
    /// acting commander.  Refuses with `NotFound` for a missing or
    /// soft-deleted quest and with `InvalidTransition` from any other
    /// status.
    pub fn in_journey(&self, store: &mut GuildStore, quest_id: i32, guild_commander_id: i32)
        -> (r: Result<i32, QuestError>)
        requires
            old(store)@.wf(),
        ensures
            final(store)@.wf(),
            match cond_update_check(old(store)@, quest_id as int, QuestStatus::Open) {
                Some(e) => r == Err::<i32, QuestError>(e) && final(store)@ == old(store)@,
                None => r == Ok::<i32, QuestError>(quest_id) && final(store)@ == cond_update_effect(
                    old(store)@,
                    quest_id as int,
                    QuestStatus::InJourney,
                    guild_commander_id as int,
                ),
            },
    {
        store.conditional_update_status(
            quest_id,
            QuestStatus::Open,
            QuestStatus::InJourney,
            guild_commander_id,
        )
    }

    /// Moves an `InJourney` quest into the terminal status `Completed`.
    /// Refuses with `NotFound` for a missing or soft-deleted quest and
    /// with `InvalidTransition` from any other status.
    pub fn to_completed(&self, store: &mut GuildStore, quest_id: i32, guild_commander_id: i32)
        -> (r: Result<i32, QuestError>)
        requires
            old(store)@.wf(),
        ensures
            final(store)@.wf(),
            match cond_update_check(old(store)@, quest_id as int, QuestStatus::InJourney) {
                Some(e) => r == Err::<i32, QuestError>(e) && final(store)@ == old(store)@,
                None => r == Ok::<i32, QuestError>(quest_id) && final(store)@ == cond_update_effect(
                    old(store)@,
                    quest_id as int,
                    QuestStatus::Completed,
                    guild_commander_id as int,
                ),
            },
    {
        store.conditional_update_status(
            quest_id,
            QuestStatus::InJourney,
            QuestStatus::Completed,
            guild_commander_id,
        )
    }

    /// Moves an `InJourney` quest into `Failed`.  A failed quest is
    /// terminal for this ledger, though its roster stays open to
    /// reshuffling.  Refuses with `NotFound` for a missing or soft-deleted
    /// quest and with `InvalidTransition` from any other status.
    pub fn to_failed(&self, store: &mut GuildStore, quest_id: i32, guild_commander_id: i32)
        -> (r: Result<i32, QuestError>)
        requires
            old(store)@.wf(),
        ensures
            final(store)@.wf(),
            match cond_update_check(old(store)@, quest_id as int, QuestStatus::InJourney) {
                Some(e) => r == Err::<i32, QuestError>(e) && final(store)@ == old(store)@,
                None => r == Ok::<i32, QuestError>(quest_id) && final(store)@ == cond_update_effect(
                    old(store)@,
                    quest_id as int,
                    QuestStatus::Failed,
                    guild_commander_id as int,
                ),
            },
    {
        store.conditional_update_status(
            quest_id,
            QuestStatus::InJourney,
            QuestStatus::Failed,
            guild_commander_id,
        )
    }
}

} // verus!
