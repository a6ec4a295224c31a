//! Typed error kinds returned by the core operations.  Every failure of a
//! quest operation reflects either a business-rule violation or a store
//! fault; the kind is always determinable from the result, and nothing is
//! retried internally.

use vstd::prelude::*;

verus! {

/// The error kinds of the quest core.
#[derive(Clone, Copy, Debug, PartialEq, Eq, Structural)]
pub enum QuestError {
    /// No matching non-deleted quest exists.
    NotFound,
    /// Malformed input for quest creation.
    ValidationError,
    /// The acting commander does not own the quest.
    Forbidden,
    /// The roster already holds the maximum number of adventurers.
    QuestFull,
    /// The quest status admits no joins.
    QuestNotJoinable,
    /// The quest status admits no leaves.
    QuestNotLeaveable,
    /// The adventurer is already on the roster.
    AlreadyMember,
    /// The adventurer is not on the roster.
    NotMember,
    /// The quest is not in the source state the transition needs.
    InvalidTransition,
    /// The persistence collaborator failed; propagated unchanged.
    StoreUnavailable,
}

impl QuestError {
    /// A stable textual name for the error kind.
    pub fn message(&self) -> (r: &'static str)
        ensures
            r@ == self.spec_message(),
    {
        match self {
            QuestError::NotFound => "quest not found",
            QuestError::ValidationError => "invalid quest data",
            QuestError::Forbidden => "not the owning guild commander",
            QuestError::QuestFull => "quest roster is full",
            QuestError::QuestNotJoinable => "quest cannot be joined in its current status",
            QuestError::QuestNotLeaveable => "quest cannot be left in its current status",
            QuestError::AlreadyMember => "adventurer already joined this quest",
            QuestError::NotMember => "adventurer is not on this quest",
            QuestError::InvalidTransition => "invalid quest status transition",
            QuestError::StoreUnavailable => "quest store is unavailable",
        }
    }

    /// The view of the message of each error kind.
    pub open spec fn spec_message(self) -> Seq<char> {
        match self {
            QuestError::NotFound => "quest not found"@,
            QuestError::ValidationError => "invalid quest data"@,
            QuestError::Forbidden => "not the owning guild commander"@,
            QuestError::QuestFull => "quest roster is full"@,
            QuestError::QuestNotJoinable => "quest cannot be joined in its current status"@,
            QuestError::QuestNotLeaveable => "quest cannot be left in its current status"@,
            QuestError::AlreadyMember => "adventurer already joined this quest"@,
            QuestError::NotMember => "adventurer is not on this quest"@,
            QuestError::InvalidTransition => "invalid quest status transition"@,
            QuestError::StoreUnavailable => "quest store is unavailable"@,
        }
    }
}

} // verus!
