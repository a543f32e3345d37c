use vstd::prelude::*;
use crate::clock::now_nanos;
use crate::contributor::{keys_equal, Contributor};

verus! {

/// A contributor waiting in the queue. Times are nanoseconds since the Unix epoch.
#[derive(Debug)]
pub struct QueuedContributorState {
    pub joined: i128,
    pub updated_timestamp: i128,
    pub contributor: Contributor,
}

impl Clone for QueuedContributorState {
    fn clone(&self) -> (r: Self)
        ensures
            r == *self,
    {
        QueuedContributorState {
            joined: self.joined,
            updated_timestamp: self.updated_timestamp,
            contributor: self.contributor.clone(),
        }
    }
}

/// Why a contributor is not in the queue.
#[derive(Debug, Clone, Copy, PartialEq, Eq, Structural)]
pub enum InactiveContributorStatus {
    KickedOrDidntJoin,
    Finished,
}

/// A contributor outside the queue. Times are nanoseconds since the Unix epoch.
#[derive(Debug)]
pub struct InactiveContributorState {
    pub updated_timestamp: i128,
    pub contributor: Contributor,
    pub status: InactiveContributorStatus,
}

impl Clone for InactiveContributorState {
    fn clone(&self) -> (r: Self)
        ensures
            r == *self,
    {
        InactiveContributorState {
            updated_timestamp: self.updated_timestamp,
            contributor: self.contributor.clone(),
            status: self.status,
        }
    }
}

impl InactiveContributorState {
    /// The state of a contributor who has not joined the queue yet, stamped now.
    pub fn starting_state(contributor: Contributor) -> (s: Self)
        ensures
            s.contributor == contributor,
            s.status == InactiveContributorStatus::KickedOrDidntJoin,
    {
        InactiveContributorState {
            updated_timestamp: now_nanos(),
            contributor,
            status: InactiveContributorStatus::KickedOrDidntJoin,
        }
    }

    /// Moves the contributor into the queue; it joins now, and that is also its last update.
    pub fn make_queued(self) -> (q: QueuedContributorState)
        ensures
            q.contributor == self.contributor,
            q.joined == q.updated_timestamp,
    {
        let now = now_nanos();
        QueuedContributorState { joined: now, updated_timestamp: now, contributor: self.contributor }
    }
}

/// `s` holds an entry for the contributor with verifying key `key`.
pub open spec fn queue_has_key(s: Seq<QueuedContributorState>, key: Seq<u8>) -> bool {
    exists|j: int| 0 <= j < s.len() && (#[trigger] s[j]).contributor.verifying_key@ == key
}

/// Every entry of the contributor with key `key` becomes `state`; where there is
/// none, `state` goes to the back of the queue.
pub open spec fn queue_upsert(s: Seq<QueuedContributorState>, key: Seq<u8>, state: QueuedContributorState) -> Seq<
    QueuedContributorState,
> {
    if queue_has_key(s, key) {
        s.map_values(|e: QueuedContributorState| if e.contributor.verifying_key@ == key { state } else { e })
    } else {
        s.push(state)
    }
}

/// `i` is the place in `s` of the contributor who joined earliest; of those who
/// joined at the same time, the one nearest the front.
pub open spec fn earliest_index(s: Seq<QueuedContributorState>, i: int) -> bool {
    &&& 0 <= i < s.len()
    &&& forall|j: int| 0 <= j < s.len() ==> s[i].joined <= #[trigger] s[j].joined
    &&& forall|j: int| 0 <= j < i ==> s[i].joined < #[trigger] s[j].joined
}

/// At most one place of a queue is the earliest, so `dequeue_first` removes the
/// entry that `first` returns.
pub proof fn lemma_earliest_unique(s: Seq<QueuedContributorState>, i: int, j: int)
    requires
        earliest_index(s, i),
        earliest_index(s, j),
    ensures
        i == j,
{
    if i < j {
        assert(s[j].joined < s[i].joined);
    } else if j < i {
        assert(s[i].joined < s[j].joined);
    }
}

/// The queue of contributors waiting for their turn, first come first served.
pub struct ContributorQueue {
    entries: Vec<QueuedContributorState>,
}

impl View for ContributorQueue {
    type V = Seq<QueuedContributorState>;

    closed spec fn view(&self) -> Seq<QueuedContributorState> {
        self.entries@
    }
}

impl ContributorQueue {
    /// Sets the queued state of `contributor` (found by verifying key); a
    /// contributor not yet queued is added at the back.
    pub fn update(&mut self, contributor: &Contributor, updated_state: QueuedContributorState)
        ensures
            final(self)@ == queue_upsert(old(self)@, contributor.verifying_key@, updated_state),
    {
        let ghost key = contributor.verifying_key@;
        let ghost before = self.entries@;
        let n = self.entries.len();
        let mut found = false;
        let mut i: usize = 0;
        while i < n
            invariant
                n == before.len(),
                self.entries@.len() == n,
                0 <= i <= n,
                key == contributor.verifying_key@,
                found <==> exists|j: int| 0 <= j < i && (#[trigger] before[j]).contributor.verifying_key@ == key,
                forall|j: int|
                    0 <= j < i ==> self.entries@[j] == (if before[j].contributor.verifying_key@ == key {
                        updated_state
                    } else {
                        before[j]
                    }),
                forall|j: int| i <= j < n ==> self.entries@[j] == before[j],
            decreases n - i,
        {
            assert(self.entries@[i as int] == before[i as int]);
            if keys_equal(&self.entries[i].contributor.verifying_key, &contributor.verifying_key) {
                let st = updated_state.clone();
                self.entries.set(i, st);
                found = true;
            }
            i = i + 1;
        }
        if found {
            assert(queue_has_key(before, key));
            assert(self.entries@ =~= before.map_values(
                |e: QueuedContributorState| if e.contributor.verifying_key@ == key { updated_state } else { e },
            ));
        } else {
            assert(!queue_has_key(before, key));
            assert(self.entries@ =~= before);
            self.entries.push(updated_state);
        }
    }

    /// The contributor whose turn it is: the one who joined earliest (of those who
    /// joined at the same time, the one nearest the front).
    pub fn first(&self) -> (q: QueuedContributorState)
        requires
            self@.len() > 0,
        ensures
            exists|i: int| earliest_index(self@, i) && q == self@[i],
    {
        let i = self.earliest();
        self.entries[i].clone()
    }

    fn earliest(&self) -> (i: usize)
        requires
            self@.len() > 0,
        ensures
            earliest_index(self@, i as int),
    {
        let n = self.entries.len();
        let mut best: usize = 0;
        let mut k: usize = 1;
        while k < n
            invariant
                n == self@.len(),
                n > 0,
                0 <= best < k <= n,
                forall|j: int| 0 <= j < k ==> self@[best as int].joined <= #[trigger] self@[j].joined,
                forall|j: int| 0 <= j < best ==> self@[best as int].joined < #[trigger] self@[j].joined,
            decreases n - k,
        {
            if self.entries[k].joined < self.entries[best].joined {
                best = k;
            }
            k = k + 1;
        }
        best
    }

    /// Removes the contributor whose turn it is (the one `first` returns), if
    /// the queue is not empty.
    pub fn dequeue_first(&mut self)
        ensures
            old(self)@.len() == 0 ==> final(self)@ == old(self)@,
            old(self)@.len() > 0 ==> exists|i: int| earliest_index(old(self)@, i) && final(self)@ == old(self)@.remove(i),
    {
        if self.entries.len() > 0 {
            let i = self.earliest();
            self.entries.remove(i);
        }
    }

    /// An empty queue.
    pub fn new() -> (q: Self)
        ensures
            q@ == Seq::<QueuedContributorState>::empty(),
    {
        ContributorQueue { entries: Vec::new() }
    }
}

/// `s` holds an entry for the contributor with verifying key `key`.
pub open spec fn inactive_has_key(s: Seq<InactiveContributorState>, key: Seq<u8>) -> bool {
    exists|j: int| 0 <= j < s.len() && (#[trigger] s[j]).contributor.verifying_key@ == key
}

/// Every entry with verifying key `key` becomes `state`; where there is none,
/// `state` is appended.
pub open spec fn inactive_upsert(s: Seq<InactiveContributorState>, key: Seq<u8>, state: InactiveContributorState) -> Seq<
    InactiveContributorState,
> {
    if inactive_has_key(s, key) {
        s.map_values(|e: InactiveContributorState| if e.contributor.verifying_key@ == key { state } else { e })
    } else {
        s.push(state)
    }
}

/// The entries whose verifying key is not `key`.
pub open spec fn inactive_without(s: Seq<InactiveContributorState>, key: Seq<u8>) -> Seq<InactiveContributorState> {
    s.filter(|e: InactiveContributorState| e.contributor.verifying_key@ != key)
}

/// The contributors that are not in the queue: those who have not joined, who
/// were kicked, or who have finished.
pub struct InactiveContributors {
    entries: Vec<InactiveContributorState>,
}

impl View for InactiveContributors {
    type V = Seq<InactiveContributorState>;

    closed spec fn view(&self) -> Seq<InactiveContributorState> {
        self.entries@
    }
}

impl InactiveContributors {
    /// All inactive contributors, in the order in which they were recorded.
    pub fn as_vec(&self) -> (v: Vec<InactiveContributorState>)
        ensures
            v@ == self@,
    {
        let mut v: Vec<InactiveContributorState> = Vec::new();
        let mut i: usize = 0;
        while i < self.entries.len()
            invariant
                0 <= i <= self.entries@.len(),
                v@ == self.entries@.subrange(0, i as int),
            decreases self.entries@.len() - i,
        {
            v.push(self.entries[i].clone());
            i = i + 1;
            assert(v@ =~= self.entries@.subrange(0, i as int));
        }
        assert(self.entries@.subrange(0, self.entries@.len() as int) =~= self.entries@);
        v
    }

    /// Every authorized contributor starts out inactive, not having joined the queue.
    pub fn with_initialial_authorized_contributors(initial: &Vec<Contributor>) -> (r: Self)
        ensures
            r@.len() == initial@.len(),
            forall|i: int|
                0 <= i < initial@.len() ==> (#[trigger] r@[i]).contributor == initial@[i] && r@[i].status
                    == InactiveContributorStatus::KickedOrDidntJoin,
    {
        let mut entries: Vec<InactiveContributorState> = Vec::new();
        let mut i: usize = 0;
        while i < initial.len()
            invariant
                0 <= i <= initial@.len(),
                entries@.len() == i,
                forall|j: int|
                    0 <= j < i ==> (#[trigger] entries@[j]).contributor == initial@[j] && entries@[j].status
                        == InactiveContributorStatus::KickedOrDidntJoin,
            decreases initial@.len() - i,
        {
            let c = initial[i].clone();
            entries.push(InactiveContributorState::starting_state(c));
            i = i + 1;
        }
        InactiveContributors { entries }
    }

    /// Forgets every entry of `contributor` (found by verifying key).
    pub fn remove(&mut self, contributor: &Contributor)
        ensures
            final(self)@ == inactive_without(old(self)@, contributor.verifying_key@),
    {
        let ghost key = contributor.verifying_key@;
        let mut kept: Vec<InactiveContributorState> = Vec::new();
        let mut i: usize = 0;
        while i < self.entries.len()
            invariant
                0 <= i <= self.entries@.len(),
                key == contributor.verifying_key@,
                kept@ == inactive_without(self.entries@.subrange(0, i as int), key),
            decreases self.entries@.len() - i,
        {
            proof {
                let next = self.entries@.subrange(0, i as int + 1);
                assert(next.drop_last() =~= self.entries@.subrange(0, i as int));
                assert(next.last() == self.entries@[i as int]);
                reveal(Seq::filter);
            }
            if !keys_equal(&self.entries[i].contributor.verifying_key, &contributor.verifying_key) {
                kept.push(self.entries[i].clone());
            }
            i = i + 1;
        }
        assert(self.entries@.subrange(0, self.entries@.len() as int) =~= self.entries@);
        self.entries = kept;
    }

    /// Records `state` for the contributor with `state`'s verifying key.
    fn record(&mut self, state: InactiveContributorState)
        ensures
            final(self)@ == inactive_upsert(old(self)@, state.contributor.verifying_key@, state),
    {
        let ghost key = state.contributor.verifying_key@;
        let ghost before = self.entries@;
        let n = self.entries.len();
        let mut found = false;
        let mut i: usize = 0;
        while i < n
            invariant
                n == before.len(),
                self.entries@.len() == n,
                0 <= i <= n,
                key == state.contributor.verifying_key@,
                found <==> exists|j: int| 0 <= j < i && (#[trigger] before[j]).contributor.verifying_key@ == key,
                forall|j: int|
                    0 <= j < i ==> self.entries@[j] == (if before[j].contributor.verifying_key@ == key {
                        state
                    } else {
                        before[j]
                    }),
                forall|j: int| i <= j < n ==> self.entries@[j] == before[j],
            decreases n - i,
        {
            assert(self.entries@[i as int] == before[i as int]);
            if keys_equal(&self.entries[i].contributor.verifying_key, &state.contributor.verifying_key) {
                let st = state.clone();
                self.entries.set(i, st);
                found = true;
            }
            i = i + 1;
        }
        if found {
            assert(inactive_has_key(before, key));
            assert(self.entries@ =~= before.map_values(
                |e: InactiveContributorState| if e.contributor.verifying_key@ == key { state } else { e },
            ));
        } else {
            assert(!inactive_has_key(before, key));
            assert(self.entries@ =~= before);
            self.entries.push(state);
        }
    }

    /// Records that `contributor` has finished its contribution.
    pub fn finish(&mut self, contributor: &Contributor, artifact: ())
        ensures
            exists|t: i128|
                final(self)@ == inactive_upsert(
                    old(self)@,
                    contributor.verifying_key@,
                    InactiveContributorState {
                        updated_timestamp: t,
                        contributor: *contributor,
                        status: InactiveContributorStatus::Finished,
                    },
                ),
    {
        let state = InactiveContributorState {
            updated_timestamp: now_nanos(),
            contributor: contributor.clone(),
            status: InactiveContributorStatus::Finished,
        };
        self.record(state);
    }

    /// Records that `contributor` was kicked from the queue, or adds it for the
    /// first time, as not having joined.
    pub fn add(&mut self, contributor: &Contributor)
        ensures
            exists|t: i128|
                final(self)@ == inactive_upsert(
                    old(self)@,
                    contributor.verifying_key@,
                    InactiveContributorState {
                        updated_timestamp: t,
                        contributor: *contributor,
                        status: InactiveContributorStatus::KickedOrDidntJoin,
                    },
                ),
    {
        let state = InactiveContributorState::starting_state(contributor.clone());
        assert(state == InactiveContributorState {
            updated_timestamp: state.updated_timestamp,
            contributor: *contributor,
            status: InactiveContributorStatus::KickedOrDidntJoin,
        });
        self.record(state);
    }
}

} // verus!
