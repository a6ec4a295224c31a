//! Quest operations: creation, edit, and removal of quest records, with
//! ownership enforced on every mutation.

use vstd::prelude::*;
use crate::errors::QuestError;
use crate::quest_model::{AddQuestModel, EditQuestModel, QuestView};
use crate::quest_statuses::QuestStatus;
use crate::store::{soft_delete_effect, update_details_effect, GuildStore, StoreView};

verus! {

/// Why a mutation by `commander` on quest `qid` would refuse, or `None`:
/// the quest must exist, not be soft-deleted, and be owned by the acting
/// commander.
pub open spec fn owner_check(m: StoreView, qid: int, commander: int) -> Option<QuestError> {
    if !m.has_live_quest(qid) {
        Some(QuestError::NotFound)
    } else if m.spec_quest(qid).guild_commander_id != commander {
        Some(QuestError::Forbidden)
    } else {
        None
    }
}

/// The store after a quest is created from `model` by `commander`.
pub open spec fn add_effect(m: StoreView, commander: int, model: AddQuestModel) -> StoreView {
    StoreView {
        quests: m.quests.push(
            QuestView {
                id: m.next_quest_id,
                name: model.name@,
                description: match model.description {
                    Some(d) => Some(d@),
                    None => None,
                },
                status: QuestStatus::Open,
                guild_commander_id: commander,
                deleted: false,
            },
        ),
        roster: m.roster,
        next_quest_id: m.next_quest_id + 1,
    }
}

/// Quest creation, edit, and removal over the guild store.
pub struct QuestOpsUseCase {}

impl QuestOpsUseCase {
    /// A quest operations component.
    pub fn new() -> Self {
        QuestOpsUseCase {  }
    }

    /// Creates a quest owned by `guild_commander_id` with status `Open`
    /// and returns its fresh id.  Refuses with `ValidationError`, and
    /// changes nothing, exactly when the model is malformed.
    pub fn add(&self, store: &mut GuildStore, guild_commander_id: i32, model: AddQuestModel)
        -> (r: Result<i32, QuestError>)
        requires
            old(store)@.wf(),
            old(store)@.next_quest_id < i32::MAX,
        ensures
            final(store)@.wf(),
            if model.spec_valid() {
                r == Ok::<i32, QuestError>((old(store)@.next_quest_id) as i32) && final(store)@
                    == add_effect(old(store)@, guild_commander_id as int, model)
            } else {
                r == Err::<i32, QuestError>(QuestError::ValidationError) && final(store)@ == old(
                    store,
                )@
            },
    {
        let ghost m = store@;
        if !model.is_valid() {
            return Err(QuestError::ValidationError);
        }
        let AddQuestModel { name, description, guild_commander_id: _ } = model;
        let id = store.insert(name, description, guild_commander_id);
        proof {
            assert(store@ =~= add_effect(m, guild_commander_id as int, model));
        }
        Ok(id)
    }

    /// Applies the model's descriptive fields to the quest.  Refuses with
    /// `NotFound` for a missing or soft-deleted quest and with `Forbidden`
    /// when `guild_commander_id` is not the quest's current owner.
    pub fn edit(
        &self,
        store: &mut GuildStore,
        quest_id: i32,
        guild_commander_id: i32,
        model: EditQuestModel,
    ) -> (r: Result<i32, QuestError>)
        requires
            old(store)@.wf(),
        ensures
            final(store)@.wf(),
            match owner_check(old(store)@, quest_id as int, guild_commander_id as int) {
                Some(e) => r == Err::<i32, QuestError>(e) && final(store)@ == old(store)@,
                None => r == Ok::<i32, QuestError>(quest_id) && final(store)@
                    == update_details_effect(
                    old(store)@,
                    quest_id as int,
                    model.name@,
                    match model.description {
                        Some(d) => Some(d@),
                        None => None,
                    },
                ),
            },
    {
        let owner = match store.get_by_id(quest_id) {
            Some(q) => q.guild_commander_id,
            None => {
                return Err(QuestError::NotFound);
            },
        };
        if owner != guild_commander_id {
            return Err(QuestError::Forbidden);
        }
        let EditQuestModel { name, description, guild_commander_id: _ } = model;
        store.update_details(quest_id, name, description)
    }

    /// Soft-deletes the quest: sets its marker, never removes the record,
    /// so historical roster entries stay attributable.  Refuses with
    /// `NotFound` for a missing or already soft-deleted quest and with
    /// `Forbidden` when `guild_commander_id` is not the quest's current
    /// owner.
    pub fn remove(&self, store: &mut GuildStore, quest_id: i32, guild_commander_id: i32) -> (r:
        Result<i32, QuestError>)
        requires
            old(store)@.wf(),
        ensures
            final(store)@.wf(),
            match owner_check(old(store)@, quest_id as int, guild_commander_id as int) {
                Some(e) => r == Err::<i32, QuestError>(e) && final(store)@ == old(store)@,
                None => r == Ok::<i32, QuestError>(quest_id) && final(store)@ == soft_delete_effect(
                    old(store)@,
                    quest_id as int,
                ),
            },
    {
        let owner = match store.get_by_id(quest_id) {
            Some(q) => q.guild_commander_id,
            None => {
                return Err(QuestError::NotFound);
            },
        };
        if owner != guild_commander_id {
            return Err(QuestError::Forbidden);
        }
        store.soft_delete(quest_id)
    }
}

} // verus!
