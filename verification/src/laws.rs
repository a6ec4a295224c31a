//! Laws of the quest core, each proved over the same spec functions that
//! the components' contracts use.

use vstd::prelude::*;
use crate::crew_switchboard::{join_check, join_effect, leave_check, leave_effect};
use crate::errors::QuestError;
use crate::quest_model::QuestView;
use crate::quest_ops::owner_check;
use crate::quest_statuses::QuestStatus;
use crate::store::{
    cond_update_check, cond_update_effect, lemma_count_push, lemma_count_remove,
    lemma_pair_in_push, lemma_pair_in_remove, lemma_update_same_id, pair_in, StoreView,
};

verus! {

/// Appending one roster pair keeps the store well formed, provided the
/// quest exists and the adventurer was not on it.
proof fn lemma_join_effect_wf(m: StoreView, qid: int, aid: int)
    requires
        m.wf(),
        m.has_quest(qid),
        !m.is_member(qid, aid),
    ensures
        join_effect(m, qid, aid).wf(),
{
    let m2 = join_effect(m, qid, aid);
    let p = (qid, aid);
    assert forall|i: int, j: int|
        0 <= i < j < m2.roster.len() implies m2.roster[i] != m2.roster[j] by {
        if j < m.roster.len() {
            assert(m.roster[i] != m.roster[j]);
        } else {
            assert(m2.roster[j] == p);
            assert(m2.roster[i] == m.roster[i]);
            if m.roster[i] == p {
                assert(pair_in(m.roster, p));
            }
        }
    }
    assert forall|i: int| 0 <= i < m2.roster.len() implies m2.has_quest(
        #[trigger] m2.roster[i].0,
    ) by {
        if i < m.roster.len() {
            assert(m.has_quest(m.roster[i].0));
        } else {
            assert(m2.roster[i] == p);
        }
    }
}

/// A quest with a free slot, standing `Open` or `Failed`, admits any
/// adventurer not already on it, and the join raises its roster count by
/// exactly one while touching no quest record.
pub proof fn law_join_free_slot(m: StoreView, max: int, qid: int, aid: int)
    requires
        m.wf(),
        m.has_live_quest(qid),
        m.spec_quest(qid).status.spec_roster_changeable(),
        m.spec_count(qid) < max,
        !m.is_member(qid, aid),
    ensures
        join_check(m, max, qid, aid) is None,
        join_effect(m, qid, aid).spec_count(qid) == m.spec_count(qid) + 1,
        join_effect(m, qid, aid).quests == m.quests,
        join_effect(m, qid, aid).wf(),
{
    lemma_count_push(m.roster, qid, (qid, aid));
    lemma_join_effect_wf(m, qid, aid);
}

/// A quest whose roster stands at capacity refuses every join with
/// `QuestFull`, whatever its status.
pub proof fn law_join_full(m: StoreView, max: int, qid: int, aid: int)
    requires
        m.has_live_quest(qid),
        m.spec_count(qid) >= max,
    ensures
        join_check(m, max, qid, aid) == Some(QuestError::QuestFull),
{
}

/// A quest standing `InJourney` or `Completed` admits no roster change:
/// joins refuse with `QuestNotJoinable` (given a free slot, which
/// otherwise takes precedence as `QuestFull`), leaves with
/// `QuestNotLeaveable`.
pub proof fn law_roster_locked_in_flight(m: StoreView, max: int, qid: int, aid: int)
    requires
        m.has_live_quest(qid),
        m.spec_quest(qid).status == QuestStatus::InJourney || m.spec_quest(qid).status
            == QuestStatus::Completed,
    ensures
        m.spec_count(qid) < max ==> join_check(m, max, qid, aid) == Some(
            QuestError::QuestNotJoinable,
        ),
        leave_check(m, qid, aid) == Some(QuestError::QuestNotLeaveable),
{
}

/// A successful leave leaves no residual state: the same adventurer may
/// join the same quest again at once.
pub proof fn law_leave_then_join(m: StoreView, max: int, qid: int, aid: int)
    requires
        m.wf(),
        leave_check(m, qid, aid) is None,
        m.spec_count(qid) <= max,
    ensures
        join_check(leave_effect(m, qid, aid), max, qid, aid) is None,
{
    assert(exists|i: int|
        0 <= i < m.roster.len() && #[trigger] m.roster[i] == (qid, aid));
    let k = m.entry_idx(qid, aid);
    assert(0 <= k < m.roster.len() && m.roster[k] == (qid, aid));
    lemma_count_remove(m.roster, qid, k);
    lemma_pair_in_remove(m.roster, k);
    let m2 = leave_effect(m, qid, aid);
    assert(m2.quests == m.quests);
    assert(m2.has_live_quest(qid));
    assert(m2.spec_count(qid) == m.spec_count(qid) - 1);
    assert(!m2.is_member(qid, aid));
}

/// Taking a quest in journey succeeds exactly from `Open`, and never
/// twice: after a successful transition, a second one refuses with
/// `InvalidTransition`.
pub proof fn law_in_journey_once(m: StoreView, qid: int, commander: int)
    requires
        m.wf(),
        cond_update_check(m, qid, QuestStatus::Open) is None,
    ensures
        m.has_live_quest(qid) && m.spec_quest(qid).status == QuestStatus::Open,
        cond_update_check(
            cond_update_effect(m, qid, QuestStatus::InJourney, commander),
            qid,
            QuestStatus::Open,
        ) == Some(QuestError::InvalidTransition),
{
    assert(exists|i: int|
        0 <= i < m.quests.len() && #[trigger] m.quests[i].id == qid);
    let k = m.quest_idx(qid);
    assert(0 <= k < m.quests.len() && m.quests[k].id == qid);
    let q2 = QuestView {
        status: QuestStatus::InJourney,
        guild_commander_id: commander,
        ..m.spec_quest(qid)
    };
    lemma_update_same_id(m, k, q2);
}

/// The store after each adventurer in `aids`, in order, has attempted to
/// join quest `qid`: a refused attempt changes nothing.  Any serialization
/// of simultaneous join calls takes this shape, since every join is one
/// atomic step on the store.
pub open spec fn run_joins(m: StoreView, max: int, qid: int, aids: Seq<int>) -> StoreView
    decreases aids.len(),
{
    if aids.len() == 0 {
        m
    } else {
        let m1 = if join_check(m, max, qid, aids[0]) is None {
            join_effect(m, qid, aids[0])
        } else {
            m
        };
        run_joins(m1, max, qid, aids.drop_first())
    }
}

/// How many of the join attempts in `aids`, taken in order, succeed.
pub open spec fn join_successes(m: StoreView, max: int, qid: int, aids: Seq<int>) -> int
    decreases aids.len(),
{
    if aids.len() == 0 {
        0
    } else {
        let ok: int = if join_check(m, max, qid, aids[0]) is None {
            1
        } else {
            0
        };
        let m1 = if join_check(m, max, qid, aids[0]) is None {
            join_effect(m, qid, aids[0])
        } else {
            m
        };
        ok + join_successes(m1, max, qid, aids.drop_first())
    }
}

/// Whether every refused attempt in the sequence was refused with
/// `QuestFull` and no other error.
pub open spec fn joins_refuse_only_full(m: StoreView, max: int, qid: int, aids: Seq<int>) -> bool
    decreases aids.len(),
{
    if aids.len() == 0 {
        true
    } else {
        let c = join_check(m, max, qid, aids[0]);
        let m1 = if c is None {
            join_effect(m, qid, aids[0])
        } else {
            m
        };
        &&& (c is None || c == Some(QuestError::QuestFull))
        &&& joins_refuse_only_full(m1, max, qid, aids.drop_first())
    }
}

/// Races on the last slots settle fairly: when distinct adventurers, none
/// yet on the quest, attempt to join it in any order while it stands
/// `Open` or `Failed` with a roster within capacity, then exactly as many
/// joins succeed as there are free slots (or attempts, if fewer), every
/// refused attempt is refused with `QuestFull`, the roster never exceeds
/// capacity, and no quest record changes.
pub proof fn law_concurrent_joins(m: StoreView, max: int, qid: int, aids: Seq<int>)
    requires
        m.wf(),
        m.has_live_quest(qid),
        m.spec_quest(qid).status.spec_roster_changeable(),
        m.spec_count(qid) <= max,
        forall|i: int, j: int| 0 <= i < j < aids.len() ==> aids[i] != aids[j],
        forall|i: int| 0 <= i < aids.len() ==> !m.is_member(qid, #[trigger] aids[i]),
    ensures
        join_successes(m, max, qid, aids) == if aids.len() as int <= max - m.spec_count(qid) {
            aids.len() as int
        } else {
            max - m.spec_count(qid)
        },
        run_joins(m, max, qid, aids).spec_count(qid) == m.spec_count(qid) + join_successes(
            m,
            max,
            qid,
            aids,
        ),
        run_joins(m, max, qid, aids).spec_count(qid) <= max,
        joins_refuse_only_full(m, max, qid, aids),
        run_joins(m, max, qid, aids).quests == m.quests,
        run_joins(m, max, qid, aids).next_quest_id == m.next_quest_id,
    decreases aids.len(),
{
    if aids.len() > 0 {
        let a0 = aids[0];
        let c = join_check(m, max, qid, a0);
        let tail = aids.drop_first();
        assert(forall|i: int| 0 <= i < tail.len() ==> tail[i] == aids[i + 1]);
        if m.spec_count(qid) < max {
            assert(c is None);
            let m1 = join_effect(m, qid, a0);
            lemma_count_push(m.roster, qid, (qid, a0));
            lemma_join_effect_wf(m, qid, a0);
            lemma_pair_in_push(m.roster, (qid, a0));
            assert(m1.quests == m.quests);
            assert(m1.has_live_quest(qid));
            assert(m1.spec_quest(qid) == m.spec_quest(qid));
            assert forall|i: int| 0 <= i < tail.len() implies !m1.is_member(
                qid,
                #[trigger] tail[i],
            ) by {
                assert(tail[i] == aids[i + 1]);
                assert(aids[i + 1] != a0);
                assert(!m.is_member(qid, aids[i + 1]));
            }
            law_concurrent_joins(m1, max, qid, tail);
        } else {
            assert(c == Some(QuestError::QuestFull));
            law_concurrent_joins(m, max, qid, tail);
        }
    }
}

/// Every mutation of a quest record is gated on ownership: a non-owning
/// commander is refused with `Forbidden`, the owning commander passes.
pub proof fn law_ownership_gate(m: StoreView, qid: int, commander: int)
    requires
        m.has_live_quest(qid),
    ensures
        m.spec_quest(qid).guild_commander_id != commander ==> owner_check(m, qid, commander)
            == Some(QuestError::Forbidden),
        m.spec_quest(qid).guild_commander_id == commander ==> owner_check(m, qid, commander)
            is None,
{
}

} // verus!
