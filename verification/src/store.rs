//! The guild store: the single source of truth for quests and roster
//! entries, with the narrow operations the logic components consume —
//! filtered reads and atomic conditional writes.
//!
//! Each exec method is one read-modify-write step on the store value, taken
//! through `&mut`, so operations on the store serialize at the decision
//! point: a capacity check and its insert, or a status precondition and its
//! update, can never interleave with another operation on the same store.

use vstd::prelude::*;
use crate::errors::QuestError;
use crate::quest_model::{BoardCheckingFilter, Quest, QuestView};
use crate::quest_statuses::QuestStatus;

verus! {

/// A roster entry: the membership of one adventurer on one quest.
#[derive(Clone, Copy, Debug, PartialEq, Eq, Structural)]
pub struct RosterEntry {
    pub quest_id: i32,
    pub adventurer_id: i32,
}

/// Mathematical view of the whole store: the quest records, the roster
/// pairs `(quest id, adventurer id)` in insertion order, and the next
/// quest id to be handed out.
#[verifier::ext_equal]
pub struct StoreView {
    pub quests: Seq<QuestView>,
    pub roster: Seq<(int, int)>,
    pub next_quest_id: int,
}

/// Whether the pair `p` occurs in `roster`.
pub open spec fn pair_in(roster: Seq<(int, int)>, p: (int, int)) -> bool {
    exists|i: int| 0 <= i < roster.len() && #[trigger] roster[i] == p
}

/// The number of pairs in `roster` that belong to quest `qid`.
pub open spec fn count_pairs(roster: Seq<(int, int)>, qid: int) -> int
    decreases roster.len(),
{
    if roster.len() == 0 {
        0
    } else {
        count_pairs(roster.drop_last(), qid) + if roster.last().0 == qid {
            1int
        } else {
            0int
        }
    }
}

impl StoreView {
    /// No two quest records carry the same id.
    pub open spec fn quest_ids_unique(self) -> bool {
        forall|i: int, j: int|
            0 <= i < j < self.quests.len() ==> self.quests[i].id != self.quests[j].id
    }

    /// An adventurer appears at most once per quest.
    pub open spec fn roster_unique(self) -> bool {
        forall|i: int, j: int|
            0 <= i < j < self.roster.len() ==> self.roster[i] != self.roster[j]
    }

    /// Every roster entry points at a quest record; soft-deleted quests
    /// keep their history, so the target may be deleted.
    pub open spec fn roster_anchored(self) -> bool {
        forall|i: int| 0 <= i < self.roster.len() ==> self.has_quest(#[trigger] self.roster[i].0)
    }

    /// Ids are positive, below the next id to be handed out, and the next
    /// id still fits the id type.
    pub open spec fn ids_bounded(self) -> bool {
        &&& forall|i: int|
            0 <= i < self.quests.len() ==> 0 < #[trigger] self.quests[i].id < self.next_quest_id
        &&& 0 < self.next_quest_id <= i32::MAX
    }

    /// Well-formedness of the store: the invariants every operation
    /// preserves.
    pub open spec fn wf(self) -> bool {
        &&& self.quest_ids_unique()
        &&& self.roster_unique()
        &&& self.roster_anchored()
        &&& self.ids_bounded()
    }

    /// Whether some quest record (deleted or not) carries id `id`.
    pub open spec fn has_quest(self, id: int) -> bool {
        exists|i: int| 0 <= i < self.quests.len() && #[trigger] self.quests[i].id == id
    }

    /// The index of the quest record with id `id` (meaningful under
    /// `has_quest` and id uniqueness).
    pub open spec fn quest_idx(self, id: int) -> int {
        choose|i: int| 0 <= i < self.quests.len() && #[trigger] self.quests[i].id == id
    }

    /// The quest record with id `id`.
    pub open spec fn spec_quest(self, id: int) -> QuestView {
        self.quests[self.quest_idx(id)]
    }

    /// Whether a non-deleted quest with id `id` exists: what every
    /// operation reads before deciding.
    pub open spec fn has_live_quest(self, id: int) -> bool {
        self.has_quest(id) && !self.spec_quest(id).deleted
    }

    /// Whether adventurer `aid` is on the roster of quest `qid`.
    pub open spec fn is_member(self, qid: int, aid: int) -> bool {
        pair_in(self.roster, (qid, aid))
    }

    /// The index of the roster entry `(qid, aid)` (meaningful under
    /// `is_member` and roster uniqueness).
    pub open spec fn entry_idx(self, qid: int, aid: int) -> int {
        choose|i: int| 0 <= i < self.roster.len() && #[trigger] self.roster[i] == (qid, aid)
    }

    /// The current roster size of quest `qid`.
    pub open spec fn spec_count(self, qid: int) -> int {
        count_pairs(self.roster, qid)
    }

    /// Under id uniqueness, the record at index `k` is the one and only
    /// record with its id.
    pub proof fn lemma_quest_at(self, k: int)
        requires
            self.quest_ids_unique(),
            0 <= k < self.quests.len(),
        ensures
            self.has_quest(self.quests[k].id),
            self.quest_idx(self.quests[k].id) == k,
            self.spec_quest(self.quests[k].id) == self.quests[k],
    {
        let id = self.quests[k].id;
        assert(self.has_quest(id));
        let i = self.quest_idx(id);
        if i != k {
            if i < k {
                assert(self.quests[i].id != self.quests[k].id);
            } else {
                assert(self.quests[k].id != self.quests[i].id);
            }
        }
    }

    /// Under roster uniqueness, the entry at index `k` is the one and only
    /// entry for its pair.
    pub proof fn lemma_entry_at(self, k: int)
        requires
            self.roster_unique(),
            0 <= k < self.roster.len(),
        ensures
            self.is_member(self.roster[k].0, self.roster[k].1),
            self.entry_idx(self.roster[k].0, self.roster[k].1) == k,
    {
        let (qid, aid) = self.roster[k];
        assert(self.roster[k] == (qid, aid));
        assert(self.is_member(qid, aid));
        let i = self.entry_idx(qid, aid);
        if i != k {
            if i < k {
                assert(self.roster[i] != self.roster[k]);
            } else {
                assert(self.roster[k] != self.roster[i]);
            }
        }
    }
}

/// Appending one pair raises the count of its quest by one and leaves
/// every other count unchanged.
pub proof fn lemma_count_push(roster: Seq<(int, int)>, qid: int, p: (int, int))
    ensures
        count_pairs(roster.push(p), qid) == count_pairs(roster, qid) + if p.0 == qid {
            1int
        } else {
            0int
        },
{
    assert(roster.push(p).drop_last() =~= roster);
    assert(roster.push(p).last() == p);
}

/// Removing the pair at index `i` lowers the count of its quest by one and
/// leaves every other count unchanged.
pub proof fn lemma_count_remove(roster: Seq<(int, int)>, qid: int, i: int)
    requires
        0 <= i < roster.len(),
    ensures
        count_pairs(roster.remove(i), qid) == count_pairs(roster, qid) - if roster[i].0 == qid {
            1int
        } else {
            0int
        },
    decreases roster.len(),
{
    if i == roster.len() - 1 {
        assert(roster.remove(i) =~= roster.drop_last());
    } else {
        let shorter = roster.drop_last();
        lemma_count_remove(shorter, qid, i);
        assert(roster.remove(i).drop_last() =~= shorter.remove(i));
        assert(roster.remove(i).last() == roster.last());
    }
}

/// How membership changes when one pair is appended.
pub proof fn lemma_pair_in_push(roster: Seq<(int, int)>, p: (int, int))
    ensures
        pair_in(roster.push(p), p),
        forall|q: (int, int)| pair_in(roster.push(p), q) == (pair_in(roster, q) || q == p),
{
    let r2 = roster.push(p);
    assert(r2[roster.len() as int] == p);
    assert forall|q: (int, int)| pair_in(r2, q) == (pair_in(roster, q) || q == p) by {
        if pair_in(roster, q) {
            let i = choose|i: int| 0 <= i < roster.len() && roster[i] == q;
            assert(r2[i] == q);
        }
        if q == p {
            assert(r2[roster.len() as int] == q);
        }
        if pair_in(r2, q) && q != p {
            let i = choose|i: int| 0 <= i < r2.len() && r2[i] == q;
            assert(roster[i] == q);
        }
    }
}

/// How membership changes when the pair at index `k` is removed, provided
/// no pair occurs twice.
pub proof fn lemma_pair_in_remove(roster: Seq<(int, int)>, k: int)
    requires
        forall|i: int, j: int| 0 <= i < j < roster.len() ==> roster[i] != roster[j],
        0 <= k < roster.len(),
    ensures
        !pair_in(roster.remove(k), roster[k]),
        forall|q: (int, int)| q != roster[k] ==> pair_in(roster.remove(k), q) == pair_in(roster, q),
{
    let r2 = roster.remove(k);
    let p = roster[k];
    assert forall|i: int| 0 <= i < r2.len() implies r2[i] != p by {
        if i < k {
            assert(r2[i] == roster[i]);
        } else {
            assert(r2[i] == roster[i + 1]);
        }
    }
    assert forall|q: (int, int)| q != p implies pair_in(r2, q) == pair_in(roster, q) by {
        if pair_in(roster, q) {
            let i = choose|i: int| 0 <= i < roster.len() && roster[i] == q;
            if i < k {
                assert(r2[i] == q);
            } else {
                assert(i != k);
                assert(r2[i - 1] == q);
            }
        }
        if pair_in(r2, q) {
            let i = choose|i: int| 0 <= i < r2.len() && r2[i] == q;
            if i < k {
                assert(roster[i] == q);
            } else {
                assert(roster[i + 1] == q);
            }
        }
    }
}

/// Replacing the quest record at index `k` by one with the same id keeps
/// the store well formed and leaves every other record in place.
pub proof fn lemma_update_same_id(m: StoreView, k: int, q2: QuestView)
    requires
        m.wf(),
        0 <= k < m.quests.len(),
        q2.id == m.quests[k].id,
    ensures
        ({
            let m2 = StoreView { quests: m.quests.update(k, q2), ..m };
            &&& m2.wf()
            &&& forall|x: int| m2.has_quest(x) == m.has_quest(x)
            &&& m2.quest_idx(q2.id) == k
            &&& m2.spec_quest(q2.id) == q2
            &&& forall|x: int|
                x != q2.id && m.has_quest(x) ==> m2.quest_idx(x) == m.quest_idx(x)
                    && m2.spec_quest(x) == m.spec_quest(x)
        }),
{
    let m2 = StoreView { quests: m.quests.update(k, q2), ..m };
    assert(forall|i: int|
        0 <= i < m.quests.len() ==> #[trigger] m2.quests[i].id == m.quests[i].id);
    assert forall|x: int| m2.has_quest(x) == m.has_quest(x) by {
        if m.has_quest(x) {
            let i = choose|i: int| 0 <= i < m.quests.len() && m.quests[i].id == x;
            assert(m2.quests[i].id == x);
        }
        if m2.has_quest(x) {
            let i = choose|i: int| 0 <= i < m2.quests.len() && m2.quests[i].id == x;
            assert(m.quests[i].id == x);
        }
    }
    assert forall|i: int| 0 <= i < m2.roster.len() implies m2.has_quest(
        #[trigger] m2.roster[i].0,
    ) by {
        assert(m.has_quest(m.roster[i].0));
    }
    m2.lemma_quest_at(k);
    assert forall|x: int| x != q2.id && m.has_quest(x) implies m2.quest_idx(x) == m.quest_idx(
        x,
    ) && m2.spec_quest(x) == m.spec_quest(x) by {
        m.lemma_quest_at(m.quest_idx(x));
        let j = m.quest_idx(x);
        assert(j != k);
        assert(m2.quests[j] == m.quests[j]);
        m2.lemma_quest_at(j);
    }
}

/// Appending a quest record that carries the next id keeps the store well
/// formed and leaves every existing record in place.
pub proof fn lemma_insert_quest(m: StoreView, q: QuestView)
    requires
        m.wf(),
        q.id == m.next_quest_id,
        m.next_quest_id < i32::MAX,
    ensures
        ({
            let m2 = StoreView {
                quests: m.quests.push(q),
                roster: m.roster,
                next_quest_id: m.next_quest_id + 1,
            };
            &&& m2.wf()
            &&& !m.has_quest(q.id)
            &&& forall|x: int| m2.has_quest(x) == (m.has_quest(x) || x == q.id)
            &&& m2.quest_idx(q.id) == m.quests.len()
            &&& m2.spec_quest(q.id) == q
            &&& forall|x: int|
                x != q.id && m.has_quest(x) ==> m2.quest_idx(x) == m.quest_idx(x)
                    && m2.spec_quest(x) == m.spec_quest(x)
        }),
{
    let m2 = StoreView {
        quests: m.quests.push(q),
        roster: m.roster,
        next_quest_id: m.next_quest_id + 1,
    };
    assert(forall|i: int|
        0 <= i < m.quests.len() ==> #[trigger] m2.quests[i] == m.quests[i]);
    assert(m2.quests[m.quests.len() as int] == q);
    if m.has_quest(q.id) {
        let i = choose|i: int| 0 <= i < m.quests.len() && m.quests[i].id == q.id;
        assert(m.quests[i].id < m.next_quest_id);
    }
    assert forall|x: int| m2.has_quest(x) == (m.has_quest(x) || x == q.id) by {
        if m.has_quest(x) {
            let i = choose|i: int| 0 <= i < m.quests.len() && m.quests[i].id == x;
            assert(m2.quests[i].id == x);
        }
        if x == q.id {
            assert(m2.quests[m.quests.len() as int].id == x);
        }
        if m2.has_quest(x) && x != q.id {
            let i = choose|i: int| 0 <= i < m2.quests.len() && m2.quests[i].id == x;
            assert(i < m.quests.len());
            assert(m.quests[i].id == x);
        }
    }
    assert forall|i: int, j: int|
        0 <= i < j < m2.quests.len() implies m2.quests[i].id != m2.quests[j].id by {
        if j < m.quests.len() {
            assert(m.quests[i].id != m.quests[j].id);
        } else {
            assert(m.quests[i].id < m.next_quest_id);
        }
    }
    assert forall|i: int| 0 <= i < m2.roster.len() implies m2.has_quest(
        #[trigger] m2.roster[i].0,
    ) by {
        assert(m.has_quest(m.roster[i].0));
    }
    m2.lemma_quest_at(m.quests.len() as int);
    assert forall|x: int| x != q.id && m.has_quest(x) implies m2.quest_idx(x) == m.quest_idx(
        x,
    ) && m2.spec_quest(x) == m.spec_quest(x) by {
        m.lemma_quest_at(m.quest_idx(x));
        let j = m.quest_idx(x);
        assert(m2.quests[j] == m.quests[j]);
        m2.lemma_quest_at(j);
    }
}

/// The guild store.  Its fields are private: callers reason about it only
/// through its view and the contracts of its operations.
pub struct GuildStore {
    quests: Vec<Quest>,
    roster: Vec<RosterEntry>,
    next_quest_id: i32,
}

impl View for GuildStore {
    type V = StoreView;

    closed spec fn view(&self) -> StoreView {
        StoreView {
            quests: Seq::new(self.quests@.len(), |i: int| self.quests@[i]@),
            roster: Seq::new(
                self.roster@.len(),
                |i: int| (self.roster@[i].quest_id as int, self.roster@[i].adventurer_id as int),
            ),
            next_quest_id: self.next_quest_id as int,
        }
    }
}

impl GuildStore {
    /// An empty store; the first quest will get id 1.
    pub fn new() -> (s: Self)
        ensures
            s@.quests == Seq::<QuestView>::empty(),
            s@.roster == Seq::<(int, int)>::empty(),
            s@.next_quest_id == 1,
            s@.wf(),
    {
        let s = GuildStore { quests: Vec::new(), roster: Vec::new(), next_quest_id: 1 };
        proof {
            assert(s@.quests =~= Seq::<QuestView>::empty());
            assert(s@.roster =~= Seq::<(int, int)>::empty());
        }
        s
    }

    /// Whether a fresh quest id can still be handed out.
    pub fn can_assign_id(&self) -> (r: bool)
        ensures
            r == (self@.next_quest_id < i32::MAX),
    {
        self.next_quest_id < i32::MAX
    }

    /// The index of the quest record with the given id, if any.
    fn find_quest_index(&self, quest_id: i32) -> (r: Option<usize>)
        ensures
            match r {
                Some(k) => k < self@.quests.len() && self@.quests[k as int].id == quest_id as int,
                None => !self@.has_quest(quest_id as int),
            },
    {
        let n = self.quests.len();
        let mut i: usize = 0;
        while i < n
            invariant
                i <= n,
                n == self@.quests.len(),
                forall|j: int| 0 <= j < i ==> self@.quests[j].id != quest_id as int,
            decreases n - i,
        {
            if self.quests[i].id == quest_id {
                return Some(i);
            }
            i = i + 1;
        }
        None
    }

    /// The index of the roster entry for the given pair, if any.
    fn find_entry_index(&self, quest_id: i32, adventurer_id: i32) -> (r: Option<usize>)
        ensures
            match r {
                Some(k) => k < self@.roster.len() && self@.roster[k as int] == (
                    quest_id as int,
                    adventurer_id as int,
                ),
                None => !self@.is_member(quest_id as int, adventurer_id as int),
            },
    {
        let n = self.roster.len();
        let mut i: usize = 0;
        while i < n
            invariant
                i <= n,
                n == self@.roster.len(),
                forall|j: int|
                    0 <= j < i ==> self@.roster[j] != (quest_id as int, adventurer_id as int),
            decreases n - i,
        {
            if self.roster[i].quest_id == quest_id && self.roster[i].adventurer_id == adventurer_id
            {
                return Some(i);
            }
            i = i + 1;
        }
        None
    }

    /// Filtered read: the non-deleted quest with the given id, or `None`.
    /// Relied on by every component as its source of truth before a
    /// decision.
    pub fn get_by_id(&self, quest_id: i32) -> (r: Option<&Quest>)
        requires
            self@.wf(),
        ensures
            match r {
                Some(q) => self@.has_live_quest(quest_id as int) && q@ == self@.spec_quest(
                    quest_id as int,
                ),
                None => !self@.has_live_quest(quest_id as int),
            },
    {
        match self.find_quest_index(quest_id) {
            Some(k) => {
                proof {
                    self@.lemma_quest_at(k as int);
                }
                let q = &self.quests[k];
                if q.deleted {
                    None
                } else {
                    Some(q)
                }
            },
            None => None,
        }
    }

    /// The current roster size of a quest.
    pub fn count_by_quest(&self, quest_id: i32) -> (n: usize)
        ensures
            n as int == self@.spec_count(quest_id as int),
    {
        let len = self.roster.len();
        let mut n: usize = 0;
        let mut i: usize = 0;
        while i < len
            invariant
                i <= len,
                len == self@.roster.len(),
                n <= i,
                n as int == count_pairs(self@.roster.take(i as int), quest_id as int),
            decreases len - i,
        {
            proof {
                let prefix = self@.roster.take(i as int + 1);
                assert(prefix.drop_last() =~= self@.roster.take(i as int));
                assert(prefix.last() == self@.roster[i as int]);
            }
            if self.roster[i].quest_id == quest_id {
                n = n + 1;
            }
            i = i + 1;
        }
        proof {
            assert(self@.roster.take(len as int) =~= self@.roster);
        }
        n
    }

    /// Creates a quest record with the next id, status `Open`, and no
    /// soft-delete marker, and returns its id.
    pub fn insert(&mut self, name: String, description: Option<String>, guild_commander_id: i32)
        -> (r: i32)
        requires
            old(self)@.wf(),
            old(self)@.next_quest_id < i32::MAX,
        ensures
            final(self)@.wf(),
            r as int == old(self)@.next_quest_id,
            final(self)@.quests == old(self)@.quests.push(
                QuestView {
                    id: old(self)@.next_quest_id,
                    name: name@,
                    description: match description {
                        Some(d) => Some(d@),
                        None => None,
                    },
                    status: QuestStatus::Open,
                    guild_commander_id: guild_commander_id as int,
                    deleted: false,
                },
            ),
            final(self)@.roster == old(self)@.roster,
            final(self)@.next_quest_id == old(self)@.next_quest_id + 1,
    {
        let ghost m = self@;
        let id = self.next_quest_id;
        let quest = Quest {
            id,
            name,
            description,
            status: QuestStatus::Open,
            guild_commander_id,
            deleted: false,
        };
        let ghost qv = quest@;
        self.quests.push(quest);
        self.next_quest_id = id + 1;
        proof {
            assert(self@.quests =~= m.quests.push(qv));
            assert(self@.roster =~= m.roster);
            lemma_insert_quest(m, qv);
            assert(self@ =~= StoreView {
                quests: m.quests.push(qv),
                roster: m.roster,
                next_quest_id: m.next_quest_id + 1,
            });
        }
        id
    }

    /// Atomic conditional write: if a non-deleted quest with the given id
    /// exists and its status equals `expected_status`, set its status and
    /// its owner of record in one step; otherwise change nothing and
    /// report why.
    pub fn conditional_update_status(
        &mut self,
        quest_id: i32,
        expected_status: QuestStatus,
        new_status: QuestStatus,
        guild_commander_id: i32,
    ) -> (r: Result<i32, QuestError>)
        requires
            old(self)@.wf(),
        ensures
            final(self)@.wf(),
            match cond_update_check(old(self)@, quest_id as int, expected_status) {
                Some(e) => r == Err::<i32, QuestError>(e) && final(self)@ == old(self)@,
                None => r == Ok::<i32, QuestError>(quest_id) && final(self)@ == cond_update_effect(
                    old(self)@,
                    quest_id as int,
                    new_status,
                    guild_commander_id as int,
                ),
            },
    {
        let ghost m = self@;
        match self.find_quest_index(quest_id) {
            Some(k) => {
                proof {
                    self@.lemma_quest_at(k as int);
                }
                if self.quests[k].deleted {
                    return Err(QuestError::NotFound);
                }
                if !(self.quests[k].status == expected_status) {
                    return Err(QuestError::InvalidTransition);
                }
                let ghost q2 = QuestView {
                    status: new_status,
                    guild_commander_id: guild_commander_id as int,
                    ..m.spec_quest(quest_id as int)
                };
                let quest = &mut self.quests[k];
                quest.status = new_status;
                quest.guild_commander_id = guild_commander_id;
                proof {
                    lemma_update_same_id(m, k as int, q2);
                    assert(self@.quests =~= m.quests.update(k as int, q2));
                    assert(self@ =~= cond_update_effect(
                        m,
                        quest_id as int,
                        new_status,
                        guild_commander_id as int,
                    ));
                }
                Ok(quest_id)
            },
            None => Err(QuestError::NotFound),
        }
    }

    /// Applies new descriptive fields to the non-deleted quest with the
    /// given id, leaving status, owner, and roster untouched.
    pub fn update_details(&mut self, quest_id: i32, name: String, description: Option<String>)
        -> (r: Result<i32, QuestError>)
        requires
            old(self)@.wf(),
        ensures
            final(self)@.wf(),
            if old(self)@.has_live_quest(quest_id as int) {
                r == Ok::<i32, QuestError>(quest_id) && final(self)@ == update_details_effect(
                    old(self)@,
                    quest_id as int,
                    name@,
                    match description {
                        Some(d) => Some(d@),
                        None => None,
                    },
                )
            } else {
                r == Err::<i32, QuestError>(QuestError::NotFound) && final(self)@ == old(self)@
            },
    {
        let ghost m = self@;
        match self.find_quest_index(quest_id) {
            Some(k) => {
                proof {
                    self@.lemma_quest_at(k as int);
                }
                if self.quests[k].deleted {
                    return Err(QuestError::NotFound);
                }
                let ghost q2 = QuestView {
                    name: name@,
                    description: match &description {
                        Some(d) => Some(d@),
                        None => None,
                    },
                    ..m.spec_quest(quest_id as int)
                };
                let quest = &mut self.quests[k];
                quest.name = name;
                quest.description = description;
                proof {
                    lemma_update_same_id(m, k as int, q2);
                    assert(self@.quests =~= m.quests.update(k as int, q2));
                    assert(self@ =~= update_details_effect(
                        m,
                        quest_id as int,
                        q2.name,
                        q2.description,
                    ));
                }
                Ok(quest_id)
            },
            None => Err(QuestError::NotFound),
        }
    }

    /// Sets the soft-delete marker of the non-deleted quest with the given
    /// id.  The record stays, so roster history remains attributable, but
    /// the quest becomes invisible to every further query and mutation.
    pub fn soft_delete(&mut self, quest_id: i32) -> (r: Result<i32, QuestError>)
        requires
            old(self)@.wf(),
        ensures
            final(self)@.wf(),
            if old(self)@.has_live_quest(quest_id as int) {
                r == Ok::<i32, QuestError>(quest_id) && final(self)@ == soft_delete_effect(
                    old(self)@,
                    quest_id as int,
                )
            } else {
                r == Err::<i32, QuestError>(QuestError::NotFound) && final(self)@ == old(self)@
            },
    {
        let ghost m = self@;
        match self.find_quest_index(quest_id) {
            Some(k) => {
                proof {
                    self@.lemma_quest_at(k as int);
                }
                if self.quests[k].deleted {
                    return Err(QuestError::NotFound);
                }
                let ghost q2 = QuestView { deleted: true, ..m.spec_quest(quest_id as int) };
                let quest = &mut self.quests[k];
                quest.deleted = true;
                proof {
                    lemma_update_same_id(m, k as int, q2);
                    assert(self@.quests =~= m.quests.update(k as int, q2));
                    assert(self@ =~= soft_delete_effect(m, quest_id as int));
                }
                Ok(quest_id)
            },
            None => Err(QuestError::NotFound),
        }
    }

    /// Adds the pair to the roster unless the adventurer is already on it.
    /// The caller has read the quest, so the pair is anchored.
    pub fn insert_if_absent(&mut self, quest_id: i32, adventurer_id: i32) -> (r: Result<
        (),
        QuestError,
    >)
        requires
            old(self)@.wf(),
            old(self)@.has_quest(quest_id as int),
        ensures
            final(self)@.wf(),
            if old(self)@.is_member(quest_id as int, adventurer_id as int) {
                r == Err::<(), QuestError>(QuestError::AlreadyMember) && final(self)@ == old(self)@
            } else {
                r == Ok::<(), QuestError>(()) && final(self)@ == StoreView {
                    roster: old(self)@.roster.push((quest_id as int, adventurer_id as int)),
                    ..old(self)@
                }
            },
    {
        let ghost m = self@;
        match self.find_entry_index(quest_id, adventurer_id) {
            Some(k) => {
                proof {
                    self@.lemma_entry_at(k as int);
                }
                Err(QuestError::AlreadyMember)
            },
            None => {
                self.roster.push(RosterEntry { quest_id, adventurer_id });
                proof {
                    let p = (quest_id as int, adventurer_id as int);
                    assert(self@.roster =~= m.roster.push(p));
                    assert(self@ =~= StoreView { roster: m.roster.push(p), ..m });
                    assert forall|i: int, j: int|
                        0 <= i < j < self@.roster.len() implies self@.roster[i]
                        != self@.roster[j] by {
                        if j < m.roster.len() {
                            assert(m.roster[i] != m.roster[j]);
                        } else {
                            assert(self@.roster[j] == p);
                            assert(self@.roster[i] == m.roster[i]);
                            if m.roster[i] == p {
                                assert(pair_in(m.roster, p));
                            }
                        }
                    }
                    assert forall|i: int| 0 <= i < self@.roster.len() implies self@.has_quest(
                        #[trigger] self@.roster[i].0,
                    ) by {
                        if i < m.roster.len() {
                            assert(m.has_quest(m.roster[i].0));
                        }
                    }
                }
                Ok(())
            },
        }
    }

    /// Removes the pair from the roster, or reports that the adventurer is
    /// not on it.
    pub fn delete(&mut self, quest_id: i32, adventurer_id: i32) -> (r: Result<(), QuestError>)
        requires
            old(self)@.wf(),
        ensures
            final(self)@.wf(),
            final(self)@.quests == old(self)@.quests,
            final(self)@.next_quest_id == old(self)@.next_quest_id,
            if old(self)@.is_member(quest_id as int, adventurer_id as int) {
                r == Ok::<(), QuestError>(()) && final(self)@.roster == old(self)@.roster.remove(
                    old(self)@.entry_idx(quest_id as int, adventurer_id as int),
                )
            } else {
                r == Err::<(), QuestError>(QuestError::NotMember) && final(self)@ == old(self)@
            },
    {
        let ghost m = self@;
        match self.find_entry_index(quest_id, adventurer_id) {
            Some(k) => {
                proof {
                    self@.lemma_entry_at(k as int);
                }
                self.roster.remove(k);
                proof {
                    assert(self@.roster =~= m.roster.remove(k as int));
                    assert forall|i: int, j: int|
                        0 <= i < j < self@.roster.len() implies self@.roster[i]
                        != self@.roster[j] by {
                        let i0 = if i < k as int { i } else { i + 1 };
                        let j0 = if j < k as int { j } else { j + 1 };
                        assert(self@.roster[i] == m.roster[i0]);
                        assert(self@.roster[j] == m.roster[j0]);
                        assert(m.roster[i0] != m.roster[j0]);
                    }
                    assert forall|i: int| 0 <= i < self@.roster.len() implies self@.has_quest(
                        #[trigger] self@.roster[i].0,
                    ) by {
                        let i0 = if i < k as int { i } else { i + 1 };
                        assert(self@.roster[i] == m.roster[i0]);
                        assert(m.has_quest(m.roster[i0].0));
                    }
                }
                Ok(())
            },
            None => Err(QuestError::NotMember),
        }
    }

    /// Filtered read: the quests that belong on the board under `filter`,
    /// in store order.
    pub fn list(&self, filter: &BoardCheckingFilter) -> (r: Vec<Quest>)
        ensures
            quest_views(r@) == self@.quests.filter(|q: QuestView| filter.spec_matches(q)),
    {
        let pred = Ghost(|q: QuestView| filter.spec_matches(q));
        let n = self.quests.len();
        let mut r: Vec<Quest> = Vec::new();
        let mut i: usize = 0;
        proof {
            assert(quest_views(r@) =~= Seq::<QuestView>::empty());
            assert(self@.quests.take(0).filter(pred@) =~= Seq::<QuestView>::empty()) by {
                reveal(Seq::filter);
                assert(self@.quests.take(0) =~= Seq::<QuestView>::empty());
            }
        }
        while i < n
            invariant
                i <= n,
                n == self@.quests.len(),
                pred@ == (|q: QuestView| filter.spec_matches(q)),
                quest_views(r@) == self@.quests.take(i as int).filter(pred@),
            decreases n - i,
        {
            proof {
                let prefix = self@.quests.take(i as int + 1);
                assert(prefix.drop_last() =~= self@.quests.take(i as int));
                assert(prefix =~= self@.quests.take(i as int).push(self@.quests[i as int]));
                Seq::lemma_filter_push(
                    self@.quests.take(i as int),
                    self@.quests[i as int],
                    pred@,
                );
            }
            if filter.matches(&self.quests[i]) {
                let ghost r_old = r@;
                r.push(self.quests[i].clone());
                proof {
                    assert(quest_views(r@) =~= quest_views(r_old).push(self@.quests[i as int]));
                }
            }
            i = i + 1;
        }
        proof {
            assert(self@.quests.take(n as int) =~= self@.quests);
        }
        r
    }
}

/// The views of a sequence of quest records.
pub open spec fn quest_views(s: Seq<Quest>) -> Seq<QuestView> {
    Seq::new(s.len(), |i: int| s[i]@)
}

/// Why an atomic conditional status write would refuse, or `None` if it
/// goes through: the quest must exist, not be soft-deleted, and stand in
/// the expected status.
pub open spec fn cond_update_check(m: StoreView, qid: int, expected: QuestStatus) -> Option<
    QuestError,
> {
    if !m.has_live_quest(qid) {
        Some(QuestError::NotFound)
    } else if m.spec_quest(qid).status != expected {
        Some(QuestError::InvalidTransition)
    } else {
        None
    }
}

/// The store after an atomic conditional status write: the quest's status
/// becomes `new_status` and the acting commander becomes its owner of
/// record; everything else is untouched.
pub open spec fn cond_update_effect(
    m: StoreView,
    qid: int,
    new_status: QuestStatus,
    commander: int,
) -> StoreView {
    StoreView {
        quests: m.quests.update(
            m.quest_idx(qid),
            QuestView { status: new_status, guild_commander_id: commander, ..m.spec_quest(qid) },
        ),
        ..m
    }
}

/// The store after new descriptive fields are applied to a quest.
pub open spec fn update_details_effect(
    m: StoreView,
    qid: int,
    name: Seq<char>,
    description: Option<Seq<char>>,
) -> StoreView {
    StoreView {
        quests: m.quests.update(
            m.quest_idx(qid),
            QuestView { name: name, description: description, ..m.spec_quest(qid) },
        ),
        ..m
    }
}

/// The store after a quest's soft-delete marker is set.
pub open spec fn soft_delete_effect(m: StoreView, qid: int) -> StoreView {
    StoreView {
        quests: m.quests.update(
            m.quest_idx(qid),
            QuestView { deleted: true, ..m.spec_quest(qid) },
        ),
        ..m
    }
}

} // verus!
