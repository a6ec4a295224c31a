//! Quest records and the plain input models that the transport layer hands
//! to the core, together with their mathematical views.

use vstd::prelude::*;
use vstd::string::StrSliceExecFns;
use crate::quest_statuses::QuestStatus;

verus! {

/// Mathematical view of a quest record.
#[verifier::ext_equal]
pub struct QuestView {
    pub id: int,
    pub name: Seq<char>,
    pub description: Option<Seq<char>>,
    pub status: QuestStatus,
    pub guild_commander_id: int,
    pub deleted: bool,
}

/// A quest record as the store holds it.
///
/// `deleted` is the soft-delete marker: once set the quest is invisible to
/// every query and mutation, while its record (and the roster history that
/// points at it) remains.
#[derive(Debug)]
pub struct Quest {
    pub id: i32,
    pub name: String,
    pub description: Option<String>,
    pub status: QuestStatus,
    pub guild_commander_id: i32,
    pub deleted: bool,
}

impl View for Quest {
    type V = QuestView;

    open spec fn view(&self) -> QuestView {
        QuestView {
            id: self.id as int,
            name: self.name@,
            description: match self.description {
                Some(d) => Some(d@),
                None => None,
            },
            status: self.status,
            guild_commander_id: self.guild_commander_id as int,
            deleted: self.deleted,
        }
    }
}

impl Clone for Quest {
    /// Clones the record; the copy has the same view.
    fn clone(&self) -> (r: Self)
        ensures
            r@ == self@,
    {
        let r = Quest {
            id: self.id,
            name: self.name.clone(),
            description: match &self.description {
                Some(d) => Some(d.clone()),
                None => None,
            },
            status: self.status,
            guild_commander_id: self.guild_commander_id,
            deleted: self.deleted,
        };
        assert(r@ =~= self@);
        r
    }
}

/// The longest quest name the input models accept.
pub const MAX_QUEST_NAME_LEN: usize = 255;

/// Input model for creating a quest.
pub struct AddQuestModel {
    pub name: String,
    pub description: Option<String>,
    pub guild_commander_id: i32,
}

/// Input model for editing a quest's descriptive fields.
pub struct EditQuestModel {
    pub name: String,
    pub description: Option<String>,
    pub guild_commander_id: i32,
}

/// A well-formed creation model carries a non-empty name of bounded length.
pub open spec fn valid_quest_name(name: Seq<char>) -> bool {
    0 < name.len() <= MAX_QUEST_NAME_LEN
}

impl AddQuestModel {
    /// Whether this model may become a quest.
    pub open spec fn spec_valid(&self) -> bool {
        valid_quest_name(self.name@)
    }

    /// Decides whether this model may become a quest.
    pub fn is_valid(&self) -> (r: bool)
        ensures
            r == self.spec_valid(),
    {
        let len = self.name.as_str().unicode_len();
        0 < len && len <= MAX_QUEST_NAME_LEN
    }
}

/// Filter for the quest board: each field set narrows the result.
pub struct BoardCheckingFilter {
    pub status: Option<QuestStatus>,
    pub guild_commander_id: Option<i32>,
}

impl BoardCheckingFilter {
    /// Whether a quest belongs on the board under this filter: it is not
    /// soft-deleted and matches every field that is set.
    pub open spec fn spec_matches(&self, q: QuestView) -> bool {
        &&& !q.deleted
        &&& match self.status {
            Some(s) => q.status == s,
            None => true,
        }
        &&& match self.guild_commander_id {
            Some(c) => q.guild_commander_id == c as int,
            None => true,
        }
    }

    /// Decides whether a quest belongs on the board under this filter.
    pub fn matches(&self, q: &Quest) -> (r: bool)
        ensures
            r == self.spec_matches(q@),
    {
        if q.deleted {
            return false;
        }
        let status_ok = match self.status {
            Some(s) => q.status == s,
            None => true,
        };
        if !status_ok {
            return false;
        }
        match self.guild_commander_id {
            Some(c) => q.guild_commander_id == c,
            None => true,
        }
    }
}

} // verus!
