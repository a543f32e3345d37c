use vstd::prelude::*;
use crate::contributor::{Contributor, VerifyingKeyBytes, keys_equal};
use crate::clock::now_nanos;
use crate::store::{ContributorRow, ContributorStatus, spec_new_row, is_time, opt_time, spec_mark_finished_verify, spec_mark_kicked,
    spec_enqueue};

verus! {

broadcast use vstd::seq_lib::group_to_multiset_ensures;

/// Failures of the contributors table.
#[derive(Debug, Clone, Copy, PartialEq, Eq, Structural)]
pub enum DbError {
    /// No row has the given verifying key.
    ContributorNotFound,
    /// A row with this verifying key already exists.
    AlreadyRegistered,
    /// No contributor is queued.
    NoCurrentContributor,
    /// A stored row breaks the table's bookkeeping rules.
    MalformedRow,
    /// No row has the given verifying key, or its contributor is queued or
    /// finished and cannot join the queue.
    CannotEnqueue,
}

/// What the ceremony as a whole is waiting for, and since when (nanoseconds
/// since the Unix epoch).
#[derive(Debug, Clone, Copy, PartialEq, Eq, Structural)]
pub enum Status {
    WaitingForDownload { start: i128 },
    WaitingForCompute { start: i128 },
    WaitingForUpload { start: i128 },
    Verifying { start: i128 },
}

/// When the ceremony entered status `st`.
pub open spec fn spec_status_start(st: Status) -> i128 {
    match st {
        Status::WaitingForDownload { start } => start,
        Status::WaitingForCompute { start } => start,
        Status::WaitingForUpload { start } => start,
        Status::Verifying { start } => start,
    }
}

/// The name under which status `st` is stored.
pub open spec fn spec_status_variant(st: Status) -> Seq<char> {
    match st {
        Status::WaitingForDownload { .. } => "waiting_for_download"@,
        Status::WaitingForCompute { .. } => "waiting_for_compute"@,
        Status::WaitingForUpload { .. } => "waiting_for_upload"@,
        Status::Verifying { .. } => "verifying"@,
    }
}

/// The status stored under `name` with start `start`, if `name` is one of the
/// four stored names.
pub open spec fn spec_status_from_variant(name: Seq<char>, start: i128) -> Option<Status> {
    if name == "waiting_for_download"@ {
        Some(Status::WaitingForDownload { start })
    } else if name == "waiting_for_compute"@ {
        Some(Status::WaitingForCompute { start })
    } else if name == "waiting_for_upload"@ {
        Some(Status::WaitingForUpload { start })
    } else if name == "verifying"@ {
        Some(Status::Verifying { start })
    } else {
        None
    }
}

impl Status {
    /// When the ceremony entered this status.
    pub fn start(&self) -> (t: i128)
        ensures
            t == spec_status_start(*self),
    {
        match self {
            Status::WaitingForDownload { start } => *start,
            Status::WaitingForCompute { start } => *start,
            Status::WaitingForUpload { start } => *start,
            Status::Verifying { start } => *start,
        }
    }

    /// The name under which this status is stored.
    pub fn variant_str(&self) -> (s: &'static str)
        ensures
            s@ == spec_status_variant(*self),
    {
        match self {
            Status::WaitingForDownload { .. } => "waiting_for_download",
            Status::WaitingForCompute { .. } => "waiting_for_compute",
            Status::WaitingForUpload { .. } => "waiting_for_upload",
            Status::Verifying { .. } => "verifying",
        }
    }

    /// The status stored under `name` with start `start` (see
    /// `spec_status_from_variant`).
    pub fn from_variant_str(name: &str, start: i128) -> (r: Option<Status>)
        ensures
            r == spec_status_from_variant(name@, start),
    {
        let owned = name.to_owned();
        if owned == String::from_str("waiting_for_download") {
            Some(Status::WaitingForDownload { start })
        } else if owned == String::from_str("waiting_for_compute") {
            Some(Status::WaitingForCompute { start })
        } else if owned == String::from_str("waiting_for_upload") {
            Some(Status::WaitingForUpload { start })
        } else if owned == String::from_str("verifying") {
            Some(Status::Verifying { start })
        } else {
            None
        }
    }
}

/// Reading back the stored name and start of a status gives the status.
pub proof fn lemma_status_variant_round_trip(st: Status)
    ensures
        spec_status_from_variant(spec_status_variant(st), spec_status_start(st)) == Some(st),
{
    reveal_strlit("waiting_for_download");
    reveal_strlit("waiting_for_compute");
    reveal_strlit("waiting_for_upload");
    reveal_strlit("verifying");
    assert("waiting_for_download"@.len() != "waiting_for_compute"@.len());
    assert("waiting_for_download"@.len() != "waiting_for_upload"@.len());
    assert("waiting_for_download"@.len() != "verifying"@.len());
    assert("waiting_for_compute"@.len() != "waiting_for_upload"@.len());
    assert("waiting_for_compute"@.len() != "verifying"@.len());
    assert("waiting_for_upload"@.len() != "verifying"@.len());
}

/// The head of the query that lists rows together with their queue position:
/// a queued row's position counts the queued rows that joined strictly before
/// it; any other row has position 0.
pub const SELECT_WITH_POS_HEAD: &'static str = "SELECT c1.*, CASE WHEN c1.status = 'queued' THEN (SELECT COUNT(*) FROM contributors c2 WHERE (c2.status = 'queued') AND c2.joined_at < c1.joined_at) ELSE 0 END as pos FROM contributors c1 ";

/// The row-with-position query followed by `suffix` (a `WHERE` or `ORDER BY` clause).
pub fn select_with_pos(suffix: &str) -> (q: String)
    ensures
        q@ == SELECT_WITH_POS_HEAD@ + suffix@,
{
    let mut q = String::from_str(SELECT_WITH_POS_HEAD);
    q.append(suffix);
    q
}

/// Rows have pairwise distinct verifying keys.
pub open spec fn keys_distinct(s: Seq<ContributorRow>) -> bool {
    forall|i: int, j: int|
        0 <= i < s.len() && 0 <= j < s.len() && i != j ==> #[trigger] s[i].verifying_key@ != #[trigger] s[j].verifying_key@
}

/// The table's invariant: distinct keys, every row well formed.
pub open spec fn db_wf(s: Seq<ContributorRow>) -> bool {
    &&& keys_distinct(s)
    &&& forall|i: int| 0 <= i < s.len() ==> (#[trigger] s[i]).wf()
}

/// The index of the row with the given key, if any.
pub open spec fn has_key_at(s: Seq<ContributorRow>, key: Seq<u8>, i: int) -> bool {
    0 <= i < s.len() && s[i].verifying_key@ == key
}

pub open spec fn has_key(s: Seq<ContributorRow>, key: Seq<u8>) -> bool {
    exists|i: int| has_key_at(s, key, i)
}

/// A row counts as queued before time `t` when it is queued and joined strictly before `t`.
pub open spec fn queued_before_one(r: ContributorRow, t: i128) -> bool {
    r.status == ContributorStatus::Queued && r.joined_at is Some && r.joined_at->0 < t
}

/// How many rows are queued with a join time strictly before `t`.
pub open spec fn queued_before(s: Seq<ContributorRow>, t: i128) -> nat
    decreases s.len(),
{
    if s.len() == 0 {
        0
    } else {
        queued_before(s.drop_last(), t) + (if queued_before_one(s.last(), t) { 1nat } else { 0nat })
    }
}

/// The queue position of row `i`: the number of queued rows that joined strictly
/// before it, or 0 for a row that is not queued.
pub open spec fn spec_pos(s: Seq<ContributorRow>, i: int) -> nat {
    if s[i].status == ContributorStatus::Queued && s[i].joined_at is Some {
        queued_before(s, s[i].joined_at->0)
    } else {
        0
    }
}

/// Row `i` is queued and no queued row joined before it.
pub open spec fn is_current(s: Seq<ContributorRow>, i: int) -> bool {
    &&& 0 <= i < s.len()
    &&& s[i].status == ContributorStatus::Queued
    &&& s[i].joined_at is Some
    &&& forall|j: int|
        0 <= j < s.len() && #[trigger] s[j].status == ContributorStatus::Queued && s[j].joined_at is Some
            ==> s[i].joined_at->0 <= s[j].joined_at->0
}

/// The active contributor's row: the first (in table order) among the queued rows
/// with the earliest join time.
pub open spec fn current_index(s: Seq<ContributorRow>, i: int) -> bool {
    is_current(s, i) && forall|j: int| 0 <= j < i ==> !is_current(s, j)
}

pub open spec fn any_queued(s: Seq<ContributorRow>) -> bool {
    exists|j: int| 0 <= j < s.len() && #[trigger] s[j].status == ContributorStatus::Queued
}

/// Row `i` is finished and no finished row was verified later.
pub open spec fn is_latest_finished(s: Seq<ContributorRow>, i: int) -> bool {
    &&& 0 <= i < s.len()
    &&& s[i].status == ContributorStatus::Finished
    &&& s[i].finished_verify_at is Some
    &&& forall|j: int|
        0 <= j < s.len() && #[trigger] s[j].status == ContributorStatus::Finished && s[j].finished_verify_at is Some
            ==> s[j].finished_verify_at->0 <= s[i].finished_verify_at->0
}

pub open spec fn any_finished(s: Seq<ContributorRow>) -> bool {
    exists|j: int| 0 <= j < s.len() && #[trigger] s[j].status == ContributorStatus::Finished
}

/// The finished rows, in table order.
pub open spec fn finished_rows(s: Seq<ContributorRow>) -> Seq<ContributorRow>
    decreases s.len(),
{
    if s.len() == 0 {
        Seq::empty()
    } else if s.last().status == ContributorStatus::Finished {
        finished_rows(s.drop_last()).push(s.last())
    } else {
        finished_rows(s.drop_last())
    }
}

/// The verification time of a finished row (0 when unset).
pub open spec fn verify_time(r: ContributorRow) -> int {
    match r.finished_verify_at {
        Some(t) => t as int,
        None => 0,
    }
}

/// Sorted by verification time, earliest first.
pub open spec fn sorted_by_verify_time(s: Seq<ContributorRow>) -> bool {
    forall|i: int, j: int| 0 <= i <= j < s.len() ==> verify_time(#[trigger] s[i]) <= verify_time(#[trigger] s[j])
}

/// The table of contributors, one row per registered contributor, and the
/// ceremony's global status.
pub struct ContributorsDB {
    rows: Vec<ContributorRow>,
    global: Status,
}

impl View for ContributorsDB {
    type V = Seq<ContributorRow>;

    closed spec fn view(&self) -> Seq<ContributorRow> {
        self.rows@
    }
}

fn time_ok(t: i128) -> (ok: bool)
    ensures
        ok == is_time(t),
{
    -crate::store::MAX_TIME_MAGNITUDE <= t && t <= crate::store::MAX_TIME_MAGNITUDE
}

fn opt_time_ok(t: &Option<i128>) -> (ok: bool)
    ensures
        ok == opt_time(*t),
{
    match t {
        Some(t) => time_ok(*t),
        None => true,
    }
}

/// Finds the index of the row with the given key.
fn find_key(rows: &Vec<ContributorRow>, key: &VerifyingKeyBytes) -> (r: Option<usize>)
    ensures
        match r {
            Some(i) => has_key_at(rows@, key@, i as int),
            None => !has_key(rows@, key@),
        },
{
    let mut i: usize = 0;
    while i < rows.len()
        invariant
            0 <= i <= rows.len(),
            forall|j: int| 0 <= j < i ==> !has_key_at(rows@, key@, j),
        decreases rows.len() - i,
    {
        if keys_equal(&rows[i].verifying_key, key) {
            return Some(i);
        }
        i = i + 1;
    }
    None
}

proof fn lemma_queued_before_bound(s: Seq<ContributorRow>, t: i128)
    ensures
        queued_before(s, t) <= s.len(),
    decreases s.len(),
{
    if s.len() > 0 {
        lemma_queued_before_bound(s.drop_last(), t);
    }
}

/// Counts the queued rows that joined strictly before `t`.
fn count_queued_before(rows: &Vec<ContributorRow>, t: i128) -> (n: usize)
    ensures
        n == queued_before(rows@, t),
{
    let mut n: usize = 0;
    let mut i: usize = 0;
    while i < rows.len()
        invariant
            0 <= i <= rows.len(),
            n == queued_before(rows@.subrange(0, i as int), t),
            n <= i,
        decreases rows.len() - i,
    {
        assert(rows@.subrange(0, i + 1).drop_last() =~= rows@.subrange(0, i as int));
        let r = &rows[i];
        if r.status == ContributorStatus::Queued {
            match r.joined_at {
                Some(j) => {
                    if j < t {
                        n = n + 1;
                    }
                },
                None => {},
            }
        }
        i = i + 1;
    }
    assert(rows@.subrange(0, rows.len() as int) =~= rows@);
    n
}

/// The queue position of row `i`.
fn position_of(rows: &Vec<ContributorRow>, i: usize) -> (p: usize)
    requires
        i < rows.len(),
    ensures
        p == spec_pos(rows@, i as int),
        p <= rows.len(),
{
    let r = &rows[i];
    if r.status == ContributorStatus::Queued {
        match r.joined_at {
            Some(t) => {
                proof { lemma_queued_before_bound(rows@, t); }
                count_queued_before(rows, t)
            },
            None => 0,
        }
    } else {
        0
    }
}

/// Finds the index of the active contributor's row.
fn find_current(rows: &Vec<ContributorRow>) -> (r: Option<usize>)
    requires
        db_wf(rows@),
    ensures
        match r {
            Some(i) => current_index(rows@, i as int),
            None => !any_queued(rows@),
        },
{
    let mut best: Option<usize> = None;
    let mut i: usize = 0;
    while i < rows.len()
        invariant
            0 <= i <= rows.len(),
            db_wf(rows@),
            match best {
                Some(b) => {
                    &&& b < i
                    &&& rows@[b as int].status == ContributorStatus::Queued
                    &&& rows@[b as int].joined_at is Some
                    &&& forall|j: int| 0 <= j < i && rows@[j].status == ContributorStatus::Queued
                        ==> rows@[b as int].joined_at->0 <= rows@[j].joined_at->0
                    &&& forall|j: int| 0 <= j < b && rows@[j].status == ContributorStatus::Queued
                        ==> rows@[b as int].joined_at->0 < rows@[j].joined_at->0
                },
                None => forall|j: int| 0 <= j < i ==> rows@[j].status != ContributorStatus::Queued,
            },
        decreases rows.len() - i,
    {
        assert(rows@[i as int].wf());
        if rows[i].status == ContributorStatus::Queued {
            let t = rows[i].joined_at.unwrap();
            match best {
                None => {
                    best = Some(i);
                },
                Some(b) => {
                    let tb = rows[b].joined_at.unwrap();
                    if t < tb {
                        best = Some(i);
                    }
                },
            }
        }
        i = i + 1;
    }
    match best {
        Some(b) => {
            assert forall|j: int| 0 <= j < b implies !is_current(rows@, j) by {
                if is_current(rows@, j) {
                    assert(rows@[j].joined_at->0 <= rows@[b as int].joined_at->0);
                }
            }
        },
        None => {},
    }
    best
}

/// Finds the index of the most recently verified finished row.
fn find_latest_finished(rows: &Vec<ContributorRow>) -> (r: Option<usize>)
    requires
        db_wf(rows@),
    ensures
        match r {
            Some(i) => is_latest_finished(rows@, i as int),
            None => !any_finished(rows@),
        },
{
    let mut best: Option<usize> = None;
    let mut i: usize = 0;
    while i < rows.len()
        invariant
            0 <= i <= rows.len(),
            db_wf(rows@),
            match best {
                Some(b) => {
                    &&& b < i
                    &&& rows@[b as int].status == ContributorStatus::Finished
                    &&& rows@[b as int].finished_verify_at is Some
                    &&& forall|j: int| 0 <= j < i && rows@[j].status == ContributorStatus::Finished
                        ==> rows@[j].finished_verify_at->0 <= rows@[b as int].finished_verify_at->0
                },
                None => forall|j: int| 0 <= j < i ==> rows@[j].status != ContributorStatus::Finished,
            },
        decreases rows.len() - i,
    {
        assert(rows@[i as int].wf());
        if rows[i].status == ContributorStatus::Finished {
            let t = rows[i].finished_verify_at.unwrap();
            match best {
                None => {
                    best = Some(i);
                },
                Some(b) => {
                    let tb = rows[b].finished_verify_at.unwrap();
                    if t > tb {
                        best = Some(i);
                    }
                },
            }
        }
        i = i + 1;
    }
    best
}

/// The row at index `i` replaced by `r`, keeping the invariant when the key is kept.
proof fn lemma_update_keeps_wf(s: Seq<ContributorRow>, i: int, r: ContributorRow)
    requires
        db_wf(s),
        0 <= i < s.len(),
        r.verifying_key@ == s[i].verifying_key@,
        r.wf(),
    ensures
        db_wf(s.update(i, r)),
{
    let t = s.update(i, r);
    assert forall|a: int, b: int| 0 <= a < t.len() && 0 <= b < t.len() && a != b implies
        #[trigger] t[a].verifying_key@ != #[trigger] t[b].verifying_key@ by {
        assert(s[a].verifying_key@ != s[b].verifying_key@);
    }
}

/// Inserts `r` into a sorted sequence after every element with an earlier or
/// equal verification time.
fn insert_sorted(out: &mut Vec<ContributorRow>, r: ContributorRow)
    requires
        sorted_by_verify_time(old(out)@),
    ensures
        sorted_by_verify_time(final(out)@),
        exists|k: int| 0 <= k <= old(out)@.len() && final(out)@ == old(out)@.insert(k, r),
{
    let t: i128 = match r.finished_verify_at { Some(t) => t, None => 0 };
    let mut k: usize = 0;
    let mut done = false;
    while k < out.len() && !done
        invariant
            0 <= k <= out.len(),
            forall|j: int| 0 <= j < k ==> verify_time(#[trigger] out@[j]) <= t,
            done ==> k < out.len() && verify_time(out@[k as int]) > t,
        decreases out.len() - k, if done { 0int } else { 1int },
    {
        let tk: i128 = match out[k].finished_verify_at { Some(x) => x, None => 0 };
        if tk > t {
            done = true;
        } else {
            k = k + 1;
        }
    }
    let ghost before = out@;
    out.insert(k, r);
    proof {
        let a = out@;
        assert forall|i: int, j: int| 0 <= i <= j < a.len() implies verify_time(#[trigger] a[i]) <= verify_time(#[trigger] a[j]) by {
            if i < k && j < k {
                assert(a[i] == before[i] && a[j] == before[j]);
            } else if i < k && j == k {
                assert(a[i] == before[i]);
            } else if i < k && j > k {
                assert(a[i] == before[i] && a[j] == before[j - 1]);
                assert(verify_time(before[i]) <= t);
                if k < before.len() {
                    assert(verify_time(before[k as int]) <= verify_time(before[j - 1]));
                }
            } else if i == k && j > k {
                assert(a[j] == before[j - 1]);
                assert(verify_time(before[k as int]) <= verify_time(before[j - 1]));
            } else if i > k {
                assert(a[i] == before[i - 1] && a[j] == before[j - 1]);
            }
        }
        assert(out@ == before.insert(k as int, r));
    }
}

impl ContributorsDB {
    /// The table's invariant holds.
    pub open spec fn wf(&self) -> bool {
        db_wf(self@)
    }

    /// The ceremony's global status.
    pub closed spec fn global(&self) -> Status {
        self.global
    }

    /// An empty table; the ceremony waits for a download from now on.
    pub fn new() -> (db: Self)
        ensures
            db@ == Seq::<ContributorRow>::empty(),
            db.wf(),
            db.global() is WaitingForDownload,
    {
        ContributorsDB { rows: Vec::new(), global: Status::WaitingForDownload { start: now_nanos() } }
    }

    /// Rebuilds a table from stored rows; refused when two rows share a key or a
    /// row breaks the bookkeeping rules.
    pub fn from_rows(rows: Vec<ContributorRow>, global: Status) -> (res: Result<Self, DbError>)
        ensures
            match res {
                Ok(db) => db@ == rows@ && db.wf() && db.global() == global,
                Err(e) => {
                    &&& e == DbError::AlreadyRegistered ==> !keys_distinct(rows@)
                    &&& e == DbError::MalformedRow ==> exists|i: int| 0 <= i < rows@.len() && !(#[trigger] rows@[i]).wf()
                    &&& (e == DbError::AlreadyRegistered || e == DbError::MalformedRow)
                },
            },
            res is Ok <==> db_wf(rows@),
    {
        let mut i: usize = 0;
        while i < rows.len()
            invariant
                0 <= i <= rows.len(),
                forall|a: int, b: int| 0 <= a < i && 0 <= b < rows@.len() && a != b
                    ==> #[trigger] rows@[a].verifying_key@ != #[trigger] rows@[b].verifying_key@,
                forall|a: int| 0 <= a < i ==> (#[trigger] rows@[a]).wf(),
            decreases rows.len() - i,
        {
            let r = &rows[i];
            let status_ok = match r.status {
                ContributorStatus::Queued => r.joined_at.is_some(),
                ContributorStatus::Kicked => r.kicked_error.is_some() && r.kicked_at.is_some(),
                ContributorStatus::Finished => r.finished_verify_at.is_some(),
                ContributorStatus::DidntJoinQueue => true,
            };
            let ok = status_ok && time_ok(r.updated_timestamp) && opt_time_ok(&r.joined_at)
                && opt_time_ok(&r.kicked_at) && opt_time_ok(&r.started_download_at)
                && opt_time_ok(&r.started_compute_at) && opt_time_ok(&r.started_upload_at)
                && opt_time_ok(&r.finished_upload_at) && opt_time_ok(&r.finished_verify_at);
            if !ok {
                return Err(DbError::MalformedRow);
            }
            let mut j: usize = 0;
            while j < rows.len()
                invariant
                    0 <= i < rows.len(),
                    0 <= j <= rows.len(),
                    forall|b: int| 0 <= b < j && b != i ==> rows@[i as int].verifying_key@ != #[trigger] rows@[b].verifying_key@,
                decreases rows.len() - j,
            {
                if j != i && keys_equal(&rows[i].verifying_key, &rows[j].verifying_key) {
                    return Err(DbError::AlreadyRegistered);
                }
                j = j + 1;
            }
            i = i + 1;
        }
        Ok(ContributorsDB { rows, global })
    }

    /// Puts a contributor who has not joined, or was kicked, in the queue as of
    /// `now` (see `ContributorRow::enqueue`); returns its new row. Refused for an
    /// unknown contributor and for one who is queued or finished.
    pub fn enqueue(&mut self, contributor: &Contributor, now: i128, download_secs: u64, compute_secs: u64, upload_secs: u64)
        -> (res: Result<ContributorRow, DbError>)
        requires
            old(self).wf(),
            is_time(now),
        ensures
            final(self).wf(),
            final(self).global() == old(self).global(),
            match res {
                Ok(r) => exists|i: int| has_key_at(old(self)@, contributor.verifying_key@, i)
                    && (old(self)@[i].status == ContributorStatus::DidntJoinQueue || old(self)@[i].status == ContributorStatus::Kicked)
                    && r == spec_enqueue(old(self)@[i], now, download_secs, compute_secs, upload_secs)
                    && final(self)@ == old(self)@.update(i, r),
                Err(e) => e == DbError::CannotEnqueue && final(self)@ == old(self)@
                    && forall|i: int| has_key_at(old(self)@, contributor.verifying_key@, i)
                        ==> (old(self)@[i].status == ContributorStatus::Queued || old(self)@[i].status == ContributorStatus::Finished),
            },
    {
        match find_key(&self.rows, &contributor.verifying_key) {
            Some(i) => {
                let st = self.rows[i].status;
                if st == ContributorStatus::DidntJoinQueue || st == ContributorStatus::Kicked {
                    let r = self.rows[i].enqueue(now, download_secs, compute_secs, upload_secs);
                    proof {
                        assert(self.rows@[i as int].wf());
                        lemma_update_keeps_wf(self.rows@, i as int, r);
                    }
                    self.rows.set(i, r.clone());
                    Ok(r)
                } else {
                    proof {
                        assert forall|j: int| has_key_at(self@, contributor.verifying_key@, j) implies j == i by {
                            if j != i {
                                assert(self@[j].verifying_key@ != self@[i as int].verifying_key@);
                            }
                        }
                    }
                    Err(DbError::CannotEnqueue)
                }
            },
            None => Err(DbError::CannotEnqueue),
        }
    }

    /// Sets the ceremony's global status; the rows stay as they are.
    pub fn set_global_status(&mut self, status: Status)
        ensures
            final(self)@ == old(self)@,
            final(self).global() == status,
    {
        self.global = status;
    }

    /// The ceremony's global status.
    pub fn get_global_status(&self) -> (st: Status)
        ensures
            st == self.global(),
    {
        self.global
    }

    /// The rows, in table order.
    pub fn rows(&self) -> (r: &Vec<ContributorRow>)
        ensures
            r@ == self@,
    {
        &self.rows
    }

    /// Adds a registered contributor who has not joined the queue; refused when a
    /// row with the same verifying key exists.
    pub fn register(&mut self, contributor: &Contributor, now: i128) -> (res: Result<(), DbError>)
        requires
            old(self).wf(),
            is_time(now),
        ensures
            final(self).wf(),
            has_key(old(self)@, contributor.verifying_key@) <==> res is Err,
            res is Err ==> res == Err::<(), DbError>(DbError::AlreadyRegistered) && final(self)@ == old(self)@,
            res is Ok ==> final(self)@ == old(self)@.push(spec_new_row(*contributor, now)),
            final(self).global() == old(self).global(),
    {
        match find_key(&self.rows, &contributor.verifying_key) {
            Some(_) => Err(DbError::AlreadyRegistered),
            None => {
                let row = ContributorRow::new_at(contributor.clone(), now);
                let ghost s = self.rows@;
                self.rows.push(row);
                proof {
                    let t = self.rows@;
                    assert forall|a: int, b: int| 0 <= a < t.len() && 0 <= b < t.len() && a != b implies
                        #[trigger] t[a].verifying_key@ != #[trigger] t[b].verifying_key@ by {
                        if a == s.len() {
                            assert(!has_key_at(s, contributor.verifying_key@, b));
                        } else if b == s.len() {
                            assert(!has_key_at(s, contributor.verifying_key@, a));
                        }
                    }
                }
                Ok(())
            },
        }
    }

    /// The row of a contributor together with its queue position.
    pub fn get_with_pos(&self, contributor: &Contributor) -> (res: Result<(usize, ContributorRow), DbError>)
        ensures
            match res {
                Ok((p, r)) => exists|i: int| has_key_at(self@, contributor.verifying_key@, i)
                    && r == self@[i] && p == spec_pos(self@, i),
                Err(e) => e == DbError::ContributorNotFound && !has_key(self@, contributor.verifying_key@),
            },
    {
        match find_key(&self.rows, &contributor.verifying_key) {
            Some(i) => {
                let p = position_of(&self.rows, i);
                let r = self.rows[i].clone();
                assert(has_key_at(self@, contributor.verifying_key@, i as int));
                Ok((p, r))
            },
            None => Err(DbError::ContributorNotFound),
        }
    }

    /// Every row with its queue position, in table order.
    pub fn get_contributors(&self) -> (res: Vec<(usize, ContributorRow)>)
        ensures
            res@.len() == self@.len(),
            forall|i: int| 0 <= i < res@.len() ==> (#[trigger] res@[i]).1 == self@[i] && res@[i].0 == spec_pos(self@, i),
    {
        let mut out: Vec<(usize, ContributorRow)> = Vec::new();
        let mut i: usize = 0;
        while i < self.rows.len()
            invariant
                0 <= i <= self.rows.len(),
                out@.len() == i,
                forall|k: int| 0 <= k < i ==> (#[trigger] out@[k]).1 == self.rows@[k] && out@[k].0 == spec_pos(self.rows@, k),
            decreases self.rows.len() - i,
        {
            let p = position_of(&self.rows, i);
            out.push((p, self.rows[i].clone()));
            i = i + 1;
        }
        out
    }

    /// The finished rows, ordered by verification time, earliest first.
    pub fn get_finished_contributors(&self) -> (res: Vec<ContributorRow>)
        ensures
            sorted_by_verify_time(res@),
            res@.to_multiset() == finished_rows(self@).to_multiset(),
    {
        let mut out: Vec<ContributorRow> = Vec::new();
        let mut i: usize = 0;
        while i < self.rows.len()
            invariant
                0 <= i <= self.rows.len(),
                sorted_by_verify_time(out@),
                out@.to_multiset() == finished_rows(self.rows@.subrange(0, i as int)).to_multiset(),
            decreases self.rows.len() - i,
        {
            assert(self.rows@.subrange(0, i + 1).drop_last() =~= self.rows@.subrange(0, i as int));
            assert(self.rows@.subrange(0, i + 1).last() == self.rows@[i as int]);
            if self.rows[i].status == ContributorStatus::Finished {
                let r = self.rows[i].clone();
                insert_sorted(&mut out, r);
            }
            i = i + 1;
        }
        assert(self.rows@.subrange(0, self.rows.len() as int) =~= self.rows@);
        out
    }

    /// The active contributor's row, if anyone is queued.
    pub fn get_current(&self) -> (res: Option<ContributorRow>)
        requires
            self.wf(),
        ensures
            match res {
                Some(r) => exists|i: int| current_index(self@, i) && r == self@[i],
                None => !any_queued(self@),
            },
    {
        match find_current(&self.rows) {
            Some(i) => Some(self.rows[i].clone()),
            None => None,
        }
    }

    /// The contributor whose contribution was verified last, if any.
    pub fn get_most_recent_finished_contributor(&self) -> (res: Option<Contributor>)
        requires
            self.wf(),
        ensures
            match res {
                Some(c) => exists|i: int| is_latest_finished(self@, i)
                    && c.name == self@[i].name && c.email == self@[i].email
                    && c.verifying_key == self@[i].verifying_key,
                None => !any_finished(self@),
            },
    {
        match find_latest_finished(&self.rows) {
            Some(i) => Some(self.rows[i].contributor()),
            None => None,
        }
    }

    /// Replaces the row that has the same verifying key as `row`.
    pub fn update(&mut self, row: ContributorRow) -> (res: Result<(), DbError>)
        requires
            old(self).wf(),
            row.wf(),
        ensures
            final(self).wf(),
            match res {
                Ok(()) => exists|i: int| has_key_at(old(self)@, row.verifying_key@, i)
                    && final(self)@ == old(self)@.update(i, row),
                Err(e) => e == DbError::ContributorNotFound && !has_key(old(self)@, row.verifying_key@)
                    && final(self)@ == old(self)@,
            },
            final(self).global() == old(self).global(),
    {
        match find_key(&self.rows, &row.verifying_key) {
            Some(i) => {
                proof { lemma_update_keeps_wf(self.rows@, i as int, row); }
                self.rows.set(i, row);
                Ok(())
            },
            None => Err(DbError::ContributorNotFound),
        }
    }

    /// Marks the active contributor as finished at `now`, and the ceremony as
    /// waiting for the next download from `now`; returns the finished row.
    pub fn finish_current(&mut self, now: i128) -> (res: Result<ContributorRow, DbError>)
        requires
            old(self).wf(),
            is_time(now),
        ensures
            final(self).wf(),
            match res {
                Ok(r) => exists|i: int| current_index(old(self)@, i)
                    && r == spec_mark_finished_verify(old(self)@[i], now)
                    && final(self)@ == old(self)@.update(i, r)
                    && final(self).global() == (Status::WaitingForDownload { start: now }),
                Err(e) => e == DbError::NoCurrentContributor && !any_queued(old(self)@)
                    && final(self)@ == old(self)@ && final(self).global() == old(self).global(),
            },
    {
        match find_current(&self.rows) {
            Some(i) => {
                let r = self.rows[i].mark_finished_verify(now);
                proof { lemma_update_keeps_wf(self.rows@, i as int, r); }
                self.rows.set(i, r.clone());
                self.global = Status::WaitingForDownload { start: now };
                Ok(r)
            },
            None => Err(DbError::NoCurrentContributor),
        }
    }

    /// Kicks the active contributor at `now` with the given reason, and marks the
    /// ceremony as waiting for the next download from `now`; returns the kicked row.
    pub fn kick_current(&mut self, error: &str, now: i128) -> (res: Result<ContributorRow, DbError>)
        requires
            old(self).wf(),
            is_time(now),
        ensures
            final(self).wf(),
            match res {
                Ok(r) => exists|i: int| current_index(old(self)@, i)
                    && r.kicked_error is Some && r.kicked_error->0@ == error@
                    && r == spec_mark_kicked(old(self)@[i], r.kicked_error, now)
                    && final(self)@ == old(self)@.update(i, r)
                    && final(self).global() == (Status::WaitingForDownload { start: now }),
                Err(e) => e == DbError::NoCurrentContributor && !any_queued(old(self)@)
                    && final(self)@ == old(self)@ && final(self).global() == old(self).global(),
            },
    {
        match find_current(&self.rows) {
            Some(i) => {
                let r = self.rows[i].mark_kicked(error, now);
                proof { lemma_update_keeps_wf(self.rows@, i as int, r); }
                self.rows.set(i, r.clone());
                self.global = Status::WaitingForDownload { start: now };
                Ok(r)
            },
            None => Err(DbError::NoCurrentContributor),
        }
    }
}

} // verus!
