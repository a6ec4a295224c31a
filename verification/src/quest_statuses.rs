//! The closed set of quest statuses and its lifecycle vocabulary.
//!
//! A quest starts `Open`, may be taken `InJourney`, and from there ends
//! `Completed` or `Failed`.  Roster changes are admitted only while the
//! status is `Open` or `Failed`.

use vstd::prelude::*;
use crate::strutil::str_eq;

verus! {

/// Status of a quest.  `Open` is the initial status.
#[derive(Clone, Copy, Debug, PartialEq, Eq, Structural)]
pub enum QuestStatus {
    Open,
    InJourney,
    Completed,
    Failed,
}

impl Default for QuestStatus {
    /// A freshly created quest is `Open`.
    fn default() -> (r: Self)
        ensures
            r == QuestStatus::Open,
    {
        QuestStatus::Open
    }
}

impl QuestStatus {
    /// The view of the textual name of each status.
    pub open spec fn spec_name(self) -> Seq<char> {
        match self {
            QuestStatus::Open => "Open"@,
            QuestStatus::InJourney => "InJourney"@,
            QuestStatus::Completed => "Completed"@,
            QuestStatus::Failed => "Failed"@,
        }
    }

    /// The textual name of the status, as the persistence and transport
    /// layers spell it.
    pub fn name(&self) -> (r: &'static str)
        ensures
            r@ == self.spec_name(),
    {
        match self {
            QuestStatus::Open => "Open",
            QuestStatus::InJourney => "InJourney",
            QuestStatus::Completed => "Completed",
            QuestStatus::Failed => "Failed",
        }
    }

    /// Parses a textual status name; returns `None` on any string that is
    /// not the name of a status.
    pub fn parse(s: &str) -> (r: Option<QuestStatus>)
        ensures
            match r {
                Some(st) => s@ == st.spec_name(),
                None => forall|st: QuestStatus| s@ != st.spec_name(),
            },
    {
        proof {
            reveal_strlit("Open");
            reveal_strlit("InJourney");
            reveal_strlit("Completed");
            reveal_strlit("Failed");
        }
        if str_eq(s, "Open") {
            Some(QuestStatus::Open)
        } else if str_eq(s, "InJourney") {
            Some(QuestStatus::InJourney)
        } else if str_eq(s, "Completed") {
            Some(QuestStatus::Completed)
        } else if str_eq(s, "Failed") {
            Some(QuestStatus::Failed)
        } else {
            assert forall|st: QuestStatus| s@ != st.spec_name() by {
                match st {
                    QuestStatus::Open => {},
                    QuestStatus::InJourney => {},
                    QuestStatus::Completed => {},
                    QuestStatus::Failed => {},
                }
            }
            None
        }
    }

    /// Whether the status admits roster changes: `Open` or `Failed`.
    pub open spec fn spec_roster_changeable(self) -> bool {
        self == QuestStatus::Open || self == QuestStatus::Failed
    }

    /// Decides whether the roster of a quest in this status may change.
    pub fn roster_changeable(&self) -> (r: bool)
        ensures
            r == self.spec_roster_changeable(),
    {
        match self {
            QuestStatus::Open => true,
            QuestStatus::Failed => true,
            _ => false,
        }
    }
}

} // verus!
