use vstd::prelude::*;
use crate::contributor::{Contributor, VerifyingKeyBytes};

verus! {

/// Where a contributor stands with respect to the queue.
/// The variants are declared in the order in which reports sort them.
#[derive(Debug, Clone, Copy, PartialEq, Eq, Structural)]
pub enum ContributorStatus {
    Kicked,
    DidntJoinQueue,
    Queued,
    Finished,
}

impl ContributorStatus {
    /// Sort rank of a status in reports: kicked first, finished last.
    pub open spec fn spec_rank(self) -> u8 {
        match self {
            ContributorStatus::Kicked => 1,
            ContributorStatus::DidntJoinQueue => 2,
            ContributorStatus::Queued => 3,
            ContributorStatus::Finished => 4,
        }
    }

    /// Sort rank of a status in reports: kicked first, finished last.
    pub fn rank(&self) -> (r: u8)
        ensures
            r == self.spec_rank(),
    {
        match self {
            ContributorStatus::Kicked => 1,
            ContributorStatus::DidntJoinQueue => 2,
            ContributorStatus::Queued => 3,
            ContributorStatus::Finished => 4,
        }
    }

    /// The name under which the status is stored: the variant's name in lower case.
    pub open spec fn spec_db_name(self) -> Seq<char> {
        match self {
            ContributorStatus::Kicked => "kicked"@,
            ContributorStatus::DidntJoinQueue => "didntjoinqueue"@,
            ContributorStatus::Queued => "queued"@,
            ContributorStatus::Finished => "finished"@,
        }
    }

    /// The name under which the status is stored.
    pub fn db_name(&self) -> (s: &'static str)
        ensures
            s@ == self.spec_db_name(),
    {
        match self {
            ContributorStatus::Kicked => "kicked",
            ContributorStatus::DidntJoinQueue => "didntjoinqueue",
            ContributorStatus::Queued => "queued",
            ContributorStatus::Finished => "finished",
        }
    }

    /// The status stored under `name`, if `name` is one of the four stored names.
    pub fn from_db_name(name: &str) -> (r: Option<ContributorStatus>)
        ensures
            r == spec_status_from_db_name(name@),
    {
        let owned = name.to_owned();
        if owned == String::from_str("kicked") {
            Some(ContributorStatus::Kicked)
        } else if owned == String::from_str("didntjoinqueue") {
            Some(ContributorStatus::DidntJoinQueue)
        } else if owned == String::from_str("queued") {
            Some(ContributorStatus::Queued)
        } else if owned == String::from_str("finished") {
            Some(ContributorStatus::Finished)
        } else {
            None
        }
    }
}

/// The status whose stored name is `name`, if any.
pub open spec fn spec_status_from_db_name(name: Seq<char>) -> Option<ContributorStatus> {
    if name == "kicked"@ {
        Some(ContributorStatus::Kicked)
    } else if name == "didntjoinqueue"@ {
        Some(ContributorStatus::DidntJoinQueue)
    } else if name == "queued"@ {
        Some(ContributorStatus::Queued)
    } else if name == "finished"@ {
        Some(ContributorStatus::Finished)
    } else {
        None
    }
}

/// Reading back the stored name of a status gives the status.
pub proof fn lemma_status_name_round_trip(st: ContributorStatus)
    ensures
        spec_status_from_db_name(st.spec_db_name()) == Some(st),
{
    reveal_strlit("kicked");
    reveal_strlit("didntjoinqueue");
    reveal_strlit("queued");
    reveal_strlit("finished");
    assert("kicked"@[0] != "queued"@[0]);
    assert("kicked"@.len() != "didntjoinqueue"@.len() && "kicked"@.len() != "finished"@.len());
    assert("queued"@.len() != "didntjoinqueue"@.len() && "queued"@.len() != "finished"@.len());
    assert("didntjoinqueue"@.len() != "finished"@.len());
}

/// The step of its contribution that the active contributor is in.
/// Times are nanoseconds since the Unix epoch.
#[derive(Debug, Clone, Copy, PartialEq, Eq, Structural)]
pub enum CurrentContributionStep {
    DownloadNotStarted,
    DownloadStarted { start: i128 },
    ComputeStarted { start: i128 },
    UploadStarted { start: i128 },
    Verifying,
}

/// The variant of a step, without its start time.
pub open spec fn same_variant(a: CurrentContributionStep, b: CurrentContributionStep) -> bool {
    match (a, b) {
        (CurrentContributionStep::DownloadNotStarted, CurrentContributionStep::DownloadNotStarted) => true,
        (CurrentContributionStep::DownloadStarted { .. }, CurrentContributionStep::DownloadStarted { .. }) => true,
        (CurrentContributionStep::ComputeStarted { .. }, CurrentContributionStep::ComputeStarted { .. }) => true,
        (CurrentContributionStep::UploadStarted { .. }, CurrentContributionStep::UploadStarted { .. }) => true,
        (CurrentContributionStep::Verifying, CurrentContributionStep::Verifying) => true,
        _ => false,
    }
}

/// Whether two steps are the same variant, ignoring start times.
pub fn steps_same_variant(a: &CurrentContributionStep, b: &CurrentContributionStep) -> (r: bool)
    ensures
        r == same_variant(*a, *b),
{
    match (a, b) {
        (CurrentContributionStep::DownloadNotStarted, CurrentContributionStep::DownloadNotStarted) => true,
        (CurrentContributionStep::DownloadStarted { .. }, CurrentContributionStep::DownloadStarted { .. }) => true,
        (CurrentContributionStep::ComputeStarted { .. }, CurrentContributionStep::ComputeStarted { .. }) => true,
        (CurrentContributionStep::UploadStarted { .. }, CurrentContributionStep::UploadStarted { .. }) => true,
        (CurrentContributionStep::Verifying, CurrentContributionStep::Verifying) => true,
        _ => false,
    }
}

impl CurrentContributionStep {
    /// Human-readable name of the step.
    pub open spec fn spec_variant_name(self) -> Seq<char> {
        match self {
            CurrentContributionStep::DownloadNotStarted => "download not started"@,
            CurrentContributionStep::DownloadStarted { .. } => "download started"@,
            CurrentContributionStep::ComputeStarted { .. } => "compute started"@,
            CurrentContributionStep::UploadStarted { .. } => "upload started"@,
            CurrentContributionStep::Verifying => "verification started"@,
        }
    }

    /// Human-readable name of the step.
    pub fn variant_name(&self) -> (s: &'static str)
        ensures
            s@ == self.spec_variant_name(),
    {
        match self {
            CurrentContributionStep::DownloadNotStarted => "download not started",
            CurrentContributionStep::DownloadStarted { .. } => "download started",
            CurrentContributionStep::ComputeStarted { .. } => "compute started",
            CurrentContributionStep::UploadStarted { .. } => "upload started",
            CurrentContributionStep::Verifying => "verification started",
        }
    }
}

/// Clones an optional string; the copy equals it.
pub fn clone_opt_string(s: &Option<String>) -> (r: Option<String>)
    ensures
        r == *s,
{
    match s {
        Some(x) => Some(x.clone()),
        None => None,
    }
}

/// The largest magnitude of a timestamp, in nanoseconds (2^73): every date a
/// `chrono::DateTime<Utc>` can hold (years -262143 to 262142) lies within it,
/// and the difference of two such timestamps fits an `i128`.
pub const MAX_TIME_MAGNITUDE: i128 = 9444732965739290427392;

/// A timestamp (nanoseconds since the Unix epoch) of a representable date.
pub open spec fn is_time(t: i128) -> bool {
    -MAX_TIME_MAGNITUDE <= t <= MAX_TIME_MAGNITUDE
}

/// An optional timestamp that, when set, is a representable date.
pub open spec fn opt_time(t: Option<i128>) -> bool {
    match t {
        Some(t) => is_time(t),
        None => true,
    }
}

/// One contributor's record in the contributors table.
/// All times are nanoseconds since the Unix epoch.
#[derive(Debug)]
pub struct ContributorRow {
    pub updated_timestamp: i128,
    pub verifying_key: VerifyingKeyBytes,
    pub name: String,
    pub email: String,
    pub status: ContributorStatus,
    pub test_download_secs: Option<u32>,
    pub test_compute_secs: Option<u32>,
    pub test_upload_secs: Option<u32>,
    pub joined_at: Option<i128>,
    pub kicked_at: Option<i128>,
    pub kicked_error: Option<String>,
    pub started_download_at: Option<i128>,
    pub started_compute_at: Option<i128>,
    pub started_upload_at: Option<i128>,
    pub finished_upload_at: Option<i128>,
    pub contribution_hash: Option<String>,
    pub finished_verify_at: Option<i128>,
}

impl Clone for ContributorRow {
    fn clone(&self) -> (r: Self)
        ensures
            r == *self,
    {
        ContributorRow {
            updated_timestamp: self.updated_timestamp,
            verifying_key: self.verifying_key,
            name: self.name.clone(),
            email: self.email.clone(),
            status: self.status,
            test_download_secs: self.test_download_secs,
            test_compute_secs: self.test_compute_secs,
            test_upload_secs: self.test_upload_secs,
            joined_at: self.joined_at,
            kicked_at: self.kicked_at,
            kicked_error: clone_opt_string(&self.kicked_error),
            started_download_at: self.started_download_at,
            started_compute_at: self.started_compute_at,
            started_upload_at: self.started_upload_at,
            finished_upload_at: self.finished_upload_at,
            contribution_hash: clone_opt_string(&self.contribution_hash),
            finished_verify_at: self.finished_verify_at,
        }
    }
}

/// A row together with its position in the queue (0 for the active contributor,
/// and 0 for every contributor that is not queued).
#[derive(Debug)]
pub struct ContributorRowWithPos {
    pub pos: u64,
    pub row: ContributorRow,
}

impl Clone for ContributorRowWithPos {
    fn clone(&self) -> (r: Self)
        ensures
            r == *self,
    {
        ContributorRowWithPos { pos: self.pos, row: self.row.clone() }
    }
}

impl ContributorRowWithPos {
    pub fn into_row(self) -> (r: ContributorRow)
        ensures
            r == self.row,
    {
        self.row
    }

    /// The position as a `usize`; positions never exceed the number of rows.
    pub fn pos(&self) -> (p: usize)
        requires
            self.pos <= usize::MAX,
        ensures
            p == self.pos,
    {
        self.pos as usize
    }
}

/// The step of a row, derived from which progress timestamps are set:
/// the latest stage reached wins.
pub open spec fn spec_step(row: ContributorRow) -> CurrentContributionStep {
    if row.finished_upload_at is Some {
        CurrentContributionStep::Verifying
    } else if row.started_upload_at is Some {
        CurrentContributionStep::UploadStarted { start: row.started_upload_at->0 }
    } else if row.started_compute_at is Some {
        CurrentContributionStep::ComputeStarted { start: row.started_compute_at->0 }
    } else if row.started_download_at is Some {
        CurrentContributionStep::DownloadStarted { start: row.started_download_at->0 }
    } else {
        CurrentContributionStep::DownloadNotStarted
    }
}

/// What a freshly registered contributor's row looks like.
pub open spec fn spec_new_row(c: Contributor, now: i128) -> ContributorRow {
    ContributorRow {
        updated_timestamp: now,
        verifying_key: c.verifying_key,
        name: c.name,
        email: c.email,
        status: ContributorStatus::DidntJoinQueue,
        test_download_secs: None,
        test_compute_secs: None,
        test_upload_secs: None,
        joined_at: None,
        kicked_at: None,
        kicked_error: None,
        started_download_at: None,
        started_compute_at: None,
        started_upload_at: None,
        finished_upload_at: None,
        contribution_hash: None,
        finished_verify_at: None,
    }
}

/// Joining (or rejoining) the queue at `now`.
pub open spec fn spec_enqueue(r: ContributorRow, now: i128, download_secs: u64, compute_secs: u64, upload_secs: u64) -> ContributorRow {
    ContributorRow {
        status: ContributorStatus::Queued,
        joined_at: Some(now),
        updated_timestamp: now,
        test_download_secs: Some(download_secs as u32),
        test_compute_secs: Some(compute_secs as u32),
        test_upload_secs: Some(upload_secs as u32),
        kicked_at: None,
        kicked_error: None,
        started_download_at: None,
        started_compute_at: None,
        started_upload_at: None,
        finished_upload_at: None,
        contribution_hash: None,
        ..r
    }
}

pub open spec fn spec_update_timestamp(r: ContributorRow, now: i128) -> ContributorRow {
    ContributorRow { updated_timestamp: now, ..r }
}

pub open spec fn spec_mark_started_download(r: ContributorRow, now: i128) -> ContributorRow {
    ContributorRow { started_download_at: Some(now), updated_timestamp: now, ..r }
}

pub open spec fn spec_mark_started_compute(r: ContributorRow, now: i128) -> ContributorRow {
    ContributorRow { started_compute_at: Some(now), updated_timestamp: now, ..r }
}

pub open spec fn spec_mark_started_upload(r: ContributorRow, now: i128) -> ContributorRow {
    ContributorRow { started_upload_at: Some(now), updated_timestamp: now, ..r }
}

pub open spec fn spec_mark_finished_upload(r: ContributorRow, hash: String, now: i128) -> ContributorRow {
    ContributorRow { finished_upload_at: Some(now), updated_timestamp: now, contribution_hash: Some(hash), ..r }
}

pub open spec fn spec_mark_finished_verify(r: ContributorRow, now: i128) -> ContributorRow {
    ContributorRow { status: ContributorStatus::Finished, finished_verify_at: Some(now), updated_timestamp: now, ..r }
}

/// Kicked at `now`; `reason` is the stored reason.
pub open spec fn spec_mark_kicked(r: ContributorRow, reason: Option<String>, now: i128) -> ContributorRow {
    ContributorRow { status: ContributorStatus::Kicked, kicked_at: Some(now), updated_timestamp: now, kicked_error: reason, ..r }
}

impl ContributorRow {
    /// The bookkeeping facts every stored row satisfies: all timestamps are
    /// representable dates, a queued row has a join time, a kicked row has a kick
    /// time and reason, a finished row has a verification time.
    pub open spec fn wf(self) -> bool {
        &&& is_time(self.updated_timestamp)
        &&& opt_time(self.joined_at)
        &&& opt_time(self.kicked_at)
        &&& opt_time(self.started_download_at)
        &&& opt_time(self.started_compute_at)
        &&& opt_time(self.started_upload_at)
        &&& opt_time(self.finished_upload_at)
        &&& opt_time(self.finished_verify_at)
        &&& self.status == ContributorStatus::Queued ==> self.joined_at is Some
        &&& self.status == ContributorStatus::Kicked ==> (self.kicked_error is Some && self.kicked_at is Some)
        &&& self.status == ContributorStatus::Finished ==> self.finished_verify_at is Some
    }

    /// The contributor this row describes.
    pub fn contributor(&self) -> (c: Contributor)
        ensures
            c.name == self.name,
            c.email == self.email,
            c.verifying_key == self.verifying_key,
    {
        Contributor { name: self.name.clone(), email: self.email.clone(), verifying_key: self.verifying_key }
    }

    pub fn with_pos(self, pos: u64) -> (r: ContributorRowWithPos)
        ensures
            r.pos == pos,
            r.row == self,
    {
        ContributorRowWithPos { pos, row: self }
    }

    /// A new row for a contributor who has registered but not joined the queue,
    /// stamped with the given time.
    pub fn new_at(c: Contributor, now: i128) -> (r: Self)
        requires
            is_time(now),
        ensures
            r == spec_new_row(c, now),
            r.wf(),
    {
        ContributorRow {
            updated_timestamp: now,
            verifying_key: c.verifying_key,
            name: c.name,
            email: c.email,
            status: ContributorStatus::DidntJoinQueue,
            test_download_secs: None,
            test_compute_secs: None,
            test_upload_secs: None,
            joined_at: None,
            kicked_at: None,
            kicked_error: None,
            started_download_at: None,
            started_compute_at: None,
            started_upload_at: None,
            finished_upload_at: None,
            contribution_hash: None,
            finished_verify_at: None,
        }
    }

    /// A new row for a contributor who has registered but not joined the queue,
    /// stamped with the current time.
    pub fn new(c: Contributor) -> (r: Self)
        ensures
            exists|now: i128| r == spec_new_row(c, now),
    {
        let now = crate::clock::now_nanos();
        let ghost c0 = c;
        let r = ContributorRow {
            updated_timestamp: now,
            verifying_key: c.verifying_key,
            name: c.name,
            email: c.email,
            status: ContributorStatus::DidntJoinQueue,
            test_download_secs: None,
            test_compute_secs: None,
            test_upload_secs: None,
            joined_at: None,
            kicked_at: None,
            kicked_error: None,
            started_download_at: None,
            started_compute_at: None,
            started_upload_at: None,
            finished_upload_at: None,
            contribution_hash: None,
            finished_verify_at: None,
        };
        assert(r == spec_new_row(c0, now));
        r
    }

    /// The step of this row's contribution.
    pub fn get_current_contribution_step(&self) -> (s: CurrentContributionStep)
        ensures
            s == spec_step(*self),
    {
        if let Some(_) = self.finished_upload_at {
            CurrentContributionStep::Verifying
        } else if let Some(start) = self.started_upload_at {
            CurrentContributionStep::UploadStarted { start }
        } else if let Some(start) = self.started_compute_at {
            CurrentContributionStep::ComputeStarted { start }
        } else if let Some(start) = self.started_download_at {
            CurrentContributionStep::DownloadStarted { start }
        } else {
            CurrentContributionStep::DownloadNotStarted
        }
    }

    /// Joining (or rejoining) the queue: queued as of `now`, with the measured test
    /// times recorded (kept to their low 32 bits), and every trace of an earlier
    /// attempt cleared.
    pub fn enqueue(&self, now: i128, download_secs: u64, compute_secs: u64, upload_secs: u64) -> (r: Self)
        ensures
            r == spec_enqueue(*self, now, download_secs, compute_secs, upload_secs),
    {
        let mut r = self.clone();
        r.status = ContributorStatus::Queued;
        r.joined_at = Some(now);
        r.updated_timestamp = now;
        r.test_download_secs = Some(download_secs as u32);
        r.test_compute_secs = Some(compute_secs as u32);
        r.test_upload_secs = Some(upload_secs as u32);
        r.kicked_at = None;
        r.kicked_error = None;
        r.started_download_at = None;
        r.started_compute_at = None;
        r.started_upload_at = None;
        r.finished_upload_at = None;
        r.contribution_hash = None;
        r
    }

    /// A sign of life: only the update time changes.
    pub fn update_timestamp(&self, now: i128) -> (r: Self)
        ensures
            r == spec_update_timestamp(*self, now),
    {
        let mut r = self.clone();
        r.updated_timestamp = now;
        r
    }

    /// The download of the previous contribution started at `now`.
    pub fn mark_started_download(&self, now: i128) -> (r: Self)
        ensures
            r == spec_mark_started_download(*self, now),
    {
        let mut r = self.clone();
        r.started_download_at = Some(now);
        r.updated_timestamp = now;
        r
    }

    /// The computation of the contribution started at `now`.
    pub fn mark_started_compute(&self, now: i128) -> (r: Self)
        ensures
            r == spec_mark_started_compute(*self, now),
    {
        let mut r = self.clone();
        r.started_compute_at = Some(now);
        r.updated_timestamp = now;
        r
    }

    /// The upload of the contribution started at `now`.
    pub fn mark_started_upload(&self, now: i128) -> (r: Self)
        ensures
            r == spec_mark_started_upload(*self, now),
    {
        let mut r = self.clone();
        r.started_upload_at = Some(now);
        r.updated_timestamp = now;
        r
    }

    /// The upload finished at `now`, with the claimed hash of the contribution.
    pub fn mark_finished_upload(&self, contribution_hash: String, now: i128) -> (r: Self)
        ensures
            r == spec_mark_finished_upload(*self, contribution_hash, now),
    {
        let mut r = self.clone();
        r.finished_upload_at = Some(now);
        r.updated_timestamp = now;
        r.contribution_hash = Some(contribution_hash);
        r
    }

    /// The contribution was verified at `now`: the contributor is finished.
    pub fn mark_finished_verify(&self, now: i128) -> (r: Self)
        ensures
            r == spec_mark_finished_verify(*self, now),
    {
        let mut r = self.clone();
        r.status = ContributorStatus::Finished;
        r.finished_verify_at = Some(now);
        r.updated_timestamp = now;
        r
    }

    /// The contributor was kicked at `now` for the given reason.
    pub fn mark_kicked(&self, kicked_error: &str, now: i128) -> (r: Self)
        ensures
            r.kicked_error is Some,
            r.kicked_error->0@ == kicked_error@,
            r == spec_mark_kicked(*self, r.kicked_error, now),
    {
        let mut r = self.clone();
        r.status = ContributorStatus::Kicked;
        r.kicked_at = Some(now);
        r.updated_timestamp = now;
        r.kicked_error = Some(kicked_error.to_owned());
        r
    }
}

} // verus!
