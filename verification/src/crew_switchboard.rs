//! Roster management: the join/leave state machine.
//!
//! An adventurer may join a quest whose status is `Open` or `Failed` while
//! its roster has a free slot, and may leave it in the same statuses.  A
//! failed quest keeps an open roster so that it can be re-attempted with a
//! reshuffled crew before a commander moves it on.

use vstd::prelude::*;
use crate::errors::QuestError;
use crate::store::{
    lemma_count_push, lemma_count_remove, lemma_pair_in_push, lemma_pair_in_remove, GuildStore,
    StoreView,
};

verus! {

/// The fixed default roster capacity of a quest.
pub const MAX_ADVENTURERS_PER_QUEST: usize = 4;

/// Why a join would refuse, or `None` if it goes through.  The capacity
/// check precedes the status check: a full quest refuses with `QuestFull`
/// whatever its status.
pub open spec fn join_check(m: StoreView, max: int, qid: int, aid: int) -> Option<QuestError> {
    if !m.has_live_quest(qid) {
        Some(QuestError::NotFound)
    } else if m.spec_count(qid) >= max {
        Some(QuestError::QuestFull)
    } else if !m.spec_quest(qid).status.spec_roster_changeable() {
        Some(QuestError::QuestNotJoinable)
    } else if m.is_member(qid, aid) {
        Some(QuestError::AlreadyMember)
    } else {
        None
    }
}

/// The store after a successful join: the pair is appended to the roster;
/// the quests are untouched.
pub open spec fn join_effect(m: StoreView, qid: int, aid: int) -> StoreView {
    StoreView { roster: m.roster.push((qid, aid)), ..m }
}

/// Why a leave would refuse, or `None` if it goes through.
pub open spec fn leave_check(m: StoreView, qid: int, aid: int) -> Option<QuestError> {
    if !m.has_live_quest(qid) {
        Some(QuestError::NotFound)
    } else if !m.spec_quest(qid).status.spec_roster_changeable() {
        Some(QuestError::QuestNotLeaveable)
    } else if !m.is_member(qid, aid) {
        Some(QuestError::NotMember)
    } else {
        None
    }
}

/// The store after a successful leave: the one entry of the pair is gone;
/// the quests are untouched.
pub open spec fn leave_effect(m: StoreView, qid: int, aid: int) -> StoreView {
    StoreView { roster: m.roster.remove(m.entry_idx(qid, aid)), ..m }
}

/// Roster management over the guild store, with the roster capacity
/// injected at construction.
pub struct CrewSwitchboardUseCase {
    pub max_adventurers: usize,
}

impl CrewSwitchboardUseCase {
    /// A switchboard that admits at most `max_adventurers` per quest.
    pub fn new(max_adventurers: usize) -> (s: Self)
        ensures
            s.max_adventurers == max_adventurers,
    {
        CrewSwitchboardUseCase { max_adventurers }
    }

    /// Puts the adventurer on the quest's roster.
    ///
    /// One atomic read-modify-write step: re-reads the quest and the
    /// current count, then decides.  Refuses with `NotFound` for a missing
    /// or soft-deleted quest, `QuestFull` at capacity regardless of
    /// status, `QuestNotJoinable` unless the status is `Open` or `Failed`,
    /// and `AlreadyMember` on a duplicate join; duplicate joins are never
    /// silently accepted.
    pub fn join(&self, store: &mut GuildStore, quest_id: i32, adventurer_id: i32) -> (r: Result<
        i32,
        QuestError,
    >)
        requires
            old(store)@.wf(),
        ensures
            final(store)@.wf(),
            match join_check(
                old(store)@,
                self.max_adventurers as int,
                quest_id as int,
                adventurer_id as int,
            ) {
                Some(e) => r == Err::<i32, QuestError>(e) && final(store)@ == old(store)@,
                None => r == Ok::<i32, QuestError>(quest_id) && final(store)@ == join_effect(
                    old(store)@,
                    quest_id as int,
                    adventurer_id as int,
                ) && final(store)@.spec_count(quest_id as int) == old(store)@.spec_count(
                    quest_id as int,
                ) + 1 && final(store)@.is_member(quest_id as int, adventurer_id as int),
            },
    {
        let ghost m = store@;
        let status = match store.get_by_id(quest_id) {
            Some(q) => q.status,
            None => {
                return Err(QuestError::NotFound);
            },
        };
        let count = store.count_by_quest(quest_id);
        if count >= self.max_adventurers {
            return Err(QuestError::QuestFull);
        }
        if !status.roster_changeable() {
            return Err(QuestError::QuestNotJoinable);
        }
        match store.insert_if_absent(quest_id, adventurer_id) {
            Ok(()) => {
                proof {
                    assert(store@ =~= join_effect(m, quest_id as int, adventurer_id as int));
                    lemma_count_push(
                        m.roster,
                        quest_id as int,
                        (quest_id as int, adventurer_id as int),
                    );
                    lemma_pair_in_push(m.roster, (quest_id as int, adventurer_id as int));
                }
                Ok(quest_id)
            },
            Err(e) => Err(e),
        }
    }

    /// Takes the adventurer off the quest's roster.
    ///
    /// Refuses with `NotFound` for a missing or soft-deleted quest,
    /// `QuestNotLeaveable` unless the status is `Open` or `Failed`, and
    /// `NotMember` when no such entry exists.
    pub fn leave(&self, store: &mut GuildStore, quest_id: i32, adventurer_id: i32) -> (r: Result<
        i32,
        QuestError,
    >)
        requires
            old(store)@.wf(),
        ensures
            final(store)@.wf(),
            match leave_check(old(store)@, quest_id as int, adventurer_id as int) {
                Some(e) => r == Err::<i32, QuestError>(e) && final(store)@ == old(store)@,
                None => r == Ok::<i32, QuestError>(quest_id) && final(store)@ == leave_effect(
                    old(store)@,
                    quest_id as int,
                    adventurer_id as int,
                ) && final(store)@.spec_count(quest_id as int) == old(store)@.spec_count(
                    quest_id as int,
                ) - 1 && !final(store)@.is_member(quest_id as int, adventurer_id as int),
            },
    {
        let ghost m = store@;
        let status = match store.get_by_id(quest_id) {
            Some(q) => q.status,
            None => {
                return Err(QuestError::NotFound);
            },
        };
        if !status.roster_changeable() {
            return Err(QuestError::QuestNotLeaveable);
        }
        match store.delete(quest_id, adventurer_id) {
            Ok(()) => {
                proof {
                    assert(store@ =~= leave_effect(m, quest_id as int, adventurer_id as int));
                    let k = m.entry_idx(quest_id as int, adventurer_id as int);
                    assert(0 <= k < m.roster.len() && m.roster[k] == (
                        quest_id as int,
                        adventurer_id as int,
                    ));
                    lemma_count_remove(m.roster, quest_id as int, k);
                    lemma_pair_in_remove(m.roster, k);
                }
                Ok(quest_id)
            },
            Err(e) => Err(e),
        }
    }
}

} // verus!
