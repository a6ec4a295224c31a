//! Quest viewing: read-only projections of the guild store.  No side
//! effects; the other components use the same reads as their source of
//! truth before each decision.

use vstd::prelude::*;
use crate::errors::QuestError;
use crate::quest_model::{BoardCheckingFilter, Quest, QuestView};
use crate::store::{quest_views, GuildStore};

verus! {

/// Read-only projections over the guild store.
pub struct QuestViewingUseCase {}

impl QuestViewingUseCase {
    /// A quest viewing component.
    pub fn new() -> Self {
        QuestViewingUseCase {  }
    }

    /// The detail record of the non-deleted quest with the given id;
    /// refuses with `NotFound` exactly when no such quest exists.
    pub fn view_details(&self, store: &GuildStore, quest_id: i32) -> (r: Result<Quest, QuestError>)
        requires
            store@.wf(),
        ensures
            match r {
                Ok(q) => store@.has_live_quest(quest_id as int) && q@ == store@.spec_quest(
                    quest_id as int,
                ),
                Err(e) => e == QuestError::NotFound && !store@.has_live_quest(quest_id as int),
            },
    {
        match store.get_by_id(quest_id) {
            Some(q) => Ok(q.clone()),
            None => Err(QuestError::NotFound),
        }
    }

    /// The current roster size of the quest; zero when the quest does not
    /// exist.
    pub fn adventurer_count(&self, store: &GuildStore, quest_id: i32) -> (n: usize)
        ensures
            n as int == store@.spec_count(quest_id as int),
    {
        store.count_by_quest(quest_id)
    }

    /// The quests on the board under `filter`, in store order.
    pub fn board_checking(&self, store: &GuildStore, filter: &BoardCheckingFilter) -> (r: Vec<
        Quest,
    >)
        ensures
            quest_views(r@) == store@.quests.filter(|q: QuestView| filter.spec_matches(q)),
    {
        store.list(filter)
    }
}

} // verus!
