use vstd::prelude::*;
use crate::store::{ContributorRow, ContributorStatus};
use crate::db::{db_wf, queued_before, queued_before_one, spec_pos, is_current, current_index};

verus! {

/// With no queued row joining strictly before `t`, the count is zero, and conversely.
proof fn lemma_queued_before_zero(s: Seq<ContributorRow>, t: i128)
    ensures
        queued_before(s, t) == 0 <==> forall|j: int| 0 <= j < s.len() ==> !queued_before_one(#[trigger] s[j], t),
    decreases s.len(),
{
    if s.len() > 0 {
        lemma_queued_before_zero(s.drop_last(), t);
        if queued_before(s, t) == 0 {
            assert forall|j: int| 0 <= j < s.len() implies !queued_before_one(#[trigger] s[j], t) by {
                if j < s.len() - 1 {
                    assert(s.drop_last()[j] == s[j]);
                }
            }
        } else {
            if !queued_before_one(s.last(), t) {
                let w = choose|j: int| 0 <= j < s.drop_last().len() && queued_before_one(#[trigger] s.drop_last()[j], t);
                assert(s[w] == s.drop_last()[w]);
            }
        }
    }
}

/// Replacing one row changes the count by what the old and the new row contribute.
pub proof fn lemma_queued_before_update(s: Seq<ContributorRow>, i: int, r: ContributorRow, t: i128)
    requires
        0 <= i < s.len(),
    ensures
        queued_before(s.update(i, r), t) + (if queued_before_one(s[i], t) { 1int } else { 0int })
            == queued_before(s, t) + (if queued_before_one(r, t) { 1int } else { 0int }),
    decreases s.len(),
{
    let u = s.update(i, r);
    if i == s.len() - 1 {
        assert(u.drop_last() =~= s.drop_last());
    } else {
        lemma_queued_before_update(s.drop_last(), i, r, t);
        assert(u.drop_last() =~= s.drop_last().update(i, r));
    }
}

/// A queued row that joined in `[t1, t2)` makes the count up to `t2` exceed the count up to `t1`.
proof fn lemma_queued_before_strict(s: Seq<ContributorRow>, a: int, t1: i128, t2: i128)
    requires
        0 <= a < s.len(),
        t1 <= t2,
        s[a].status == ContributorStatus::Queued,
        s[a].joined_at is Some,
        t1 <= s[a].joined_at->0 < t2,
    ensures
        queued_before(s, t1) + 1 <= queued_before(s, t2),
    decreases s.len(),
{
    lemma_queued_before_mono(s.drop_last(), t1, t2);
    if a < s.len() - 1 {
        assert(s.drop_last()[a] == s[a]);
        lemma_queued_before_strict(s.drop_last(), a, t1, t2);
    }
}

/// The count is monotone in the time bound.
proof fn lemma_queued_before_mono(s: Seq<ContributorRow>, t1: i128, t2: i128)
    requires
        t1 <= t2,
    ensures
        queued_before(s, t1) <= queued_before(s, t2),
    decreases s.len(),
{
    if s.len() > 0 {
        lemma_queued_before_mono(s.drop_last(), t1, t2);
    }
}

/// The number of queued rows.
pub open spec fn queue_len(s: Seq<ContributorRow>) -> nat
    decreases s.len(),
{
    if s.len() == 0 {
        0
    } else {
        queue_len(s.drop_last()) + (if s.last().status == ContributorStatus::Queued { 1nat } else { 0nat })
    }
}

proof fn lemma_queued_before_all(s: Seq<ContributorRow>, t: i128)
    requires
        db_wf(s),
        forall|j: int| 0 <= j < s.len() && #[trigger] s[j].status == ContributorStatus::Queued ==> s[j].joined_at->0 < t,
    ensures
        queued_before(s, t) == queue_len(s),
    decreases s.len(),
{
    if s.len() > 0 {
        let d = s.drop_last();
        assert forall|a: int, b: int| 0 <= a < d.len() && 0 <= b < d.len() && a != b implies
            #[trigger] d[a].verifying_key@ != #[trigger] d[b].verifying_key@ by {
            assert(d[a] == s[a] && d[b] == s[b]);
        }
        assert forall|j: int| 0 <= j < d.len() implies (#[trigger] d[j]).wf() by {
            assert(d[j] == s[j]);
        }
        assert forall|j: int| 0 <= j < d.len() && #[trigger] d[j].status == ContributorStatus::Queued implies d[j].joined_at->0 < t by {
            assert(d[j] == s[j]);
        }
        lemma_queued_before_all(d, t);
        assert(s.last() == s[s.len() - 1]);
        assert(s[s.len() - 1].wf());
    }
}

/// The active contributor is at position 0 of the queue.
pub proof fn lemma_current_has_position_zero(s: Seq<ContributorRow>, i: int)
    requires
        db_wf(s),
        is_current(s, i),
    ensures
        spec_pos(s, i) == 0,
{
    let t = s[i].joined_at->0;
    assert forall|j: int| 0 <= j < s.len() implies !queued_before_one(#[trigger] s[j], t) by {
        if queued_before_one(s[j], t) {
            assert(s[i].joined_at->0 <= s[j].joined_at->0);
        }
    }
    lemma_queued_before_zero(s, t);
}

/// A queued contributor at position 0 joined no later than any other queued contributor.
pub proof fn lemma_position_zero_is_current(s: Seq<ContributorRow>, i: int)
    requires
        db_wf(s),
        0 <= i < s.len(),
        s[i].status == ContributorStatus::Queued,
        spec_pos(s, i) == 0,
    ensures
        is_current(s, i),
{
    assert(s[i].wf());
    let t = s[i].joined_at->0;
    lemma_queued_before_zero(s, t);
    assert forall|j: int|
        0 <= j < s.len() && #[trigger] s[j].status == ContributorStatus::Queued && s[j].joined_at is Some
        implies s[i].joined_at->0 <= s[j].joined_at->0 by {
        assert(!queued_before_one(s[j], t));
    }
}

/// Queue positions follow join order: a queued contributor who joined strictly
/// earlier than another has a strictly smaller position.
pub proof fn lemma_positions_follow_join_order(s: Seq<ContributorRow>, a: int, b: int)
    requires
        db_wf(s),
        0 <= a < s.len(),
        0 <= b < s.len(),
        s[a].status == ContributorStatus::Queued,
        s[b].status == ContributorStatus::Queued,
        s[a].joined_at->0 < s[b].joined_at->0,
    ensures
        spec_pos(s, a) < spec_pos(s, b),
{
    assert(s[a].wf() && s[b].wf());
    lemma_queued_before_strict(s, a, s[a].joined_at->0, s[b].joined_at->0);
}

/// When the active contributor leaves the queue (finished or kicked), every
/// queued contributor who joined after it moves up by one position, and no one else
/// moves.
pub proof fn lemma_leaving_current_advances_queue(s: Seq<ContributorRow>, i: int, r: ContributorRow, j: int)
    requires
        db_wf(s),
        current_index(s, i),
        r.status != ContributorStatus::Queued,
        0 <= j < s.len(),
        j != i,
        s[j].status == ContributorStatus::Queued,
    ensures
        s[j].joined_at->0 > s[i].joined_at->0 ==> spec_pos(s.update(i, r), j) + 1 == spec_pos(s, j),
        s[j].joined_at->0 == s[i].joined_at->0 ==> spec_pos(s.update(i, r), j) == spec_pos(s, j),
{
    assert(s[j].wf());
    let t = s[j].joined_at->0;
    lemma_queued_before_update(s, i, r, t);
    assert(s.update(i, r)[j] == s[j]);
}

/// A contributor who joins at a time later than every queued contributor's join
/// time lands at the back of the queue: its position is the number of contributors
/// queued before it joined.
pub proof fn lemma_joining_goes_to_back(s: Seq<ContributorRow>, i: int, r: ContributorRow)
    requires
        db_wf(s),
        0 <= i < s.len(),
        s[i].status != ContributorStatus::Queued,
        r.status == ContributorStatus::Queued,
        r.joined_at is Some,
        forall|j: int| 0 <= j < s.len() && #[trigger] s[j].status == ContributorStatus::Queued ==> s[j].joined_at->0 < r.joined_at->0,
    ensures
        spec_pos(s.update(i, r), i) == queue_len(s),
{
    let t = r.joined_at->0;
    lemma_queued_before_update(s, i, r, t);
    lemma_queued_before_all(s, t);
    assert(s.update(i, r)[i] == r);
}

} // verus!
