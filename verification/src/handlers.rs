use vstd::prelude::*;
use crate::config::Config;
use crate::naming::signed_decimal;
use crate::contributor::Contributor;
use crate::db::{ContributorsDB, DbError, has_key, has_key_at, spec_pos, current_index, any_queued,
    is_latest_finished, any_finished, finished_rows, sorted_by_verify_time};
use crate::error::{ErrorKind, ErrorWithCode, BAD_REQUEST, GONE, NOT_FOUND};
use crate::store::{ContributorRow, ContributorStatus, CurrentContributionStep, is_time, spec_step, same_variant,
    steps_same_variant, spec_enqueue, spec_update_timestamp, spec_mark_started_download, spec_mark_started_compute,
    spec_mark_started_upload, spec_mark_finished_upload, spec_mark_kicked, spec_mark_finished_verify};

verus! {

/// What the server tells a contributor who asks for its status.
#[derive(Debug)]
pub enum StatusResponse {
    DidntJoin,
    Kicked(String),
    WaitingInQueue(usize),
    ReadyToDownloadPrevious(Option<String>),
    WaitingForContributionWithPrevious(Option<String>),
    ReadyForUpload(Vec<String>),
    Verifying,
    Finished,
}

/// The answer to a status request, up to the links that only the file store can
/// give: the link of the previous contribution, or the upload links.
#[derive(Debug)]
pub enum StatusPlan {
    /// Answer with this response as it is.
    Respond(StatusResponse),
    /// Answer `ReadyToDownloadPrevious` with the download link of the previous
    /// contributor's contribution (none for the first contribution).
    DownloadPrevious { previous: Option<Contributor> },
    /// Answer `WaitingForContributionWithPrevious` with that link.
    ContributeWithPrevious { previous: Option<Contributor> },
    /// Answer `ReadyForUpload` with upload links for the contributor.
    Upload,
}

/// The administrator's overview: the active contributor's step and every row
/// with its queue position.
#[derive(Debug)]
pub struct ReportResponse {
    pub status: Option<CurrentContributionStep>,
    pub contributors: Vec<(usize, ContributorRow)>,
}

/// `previous` names the contributor who finished last (none when nobody has).
pub open spec fn is_previous(s: Seq<ContributorRow>, previous: Option<Contributor>) -> bool {
    match previous {
        None => !any_finished(s),
        Some(c) => exists|j: int| is_latest_finished(s, j) && c.name == s[j].name && c.email == s[j].email
            && c.verifying_key == s[j].verifying_key,
    }
}

/// The error for a contributor missing from the table.
pub open spec fn not_found(e: ErrorWithCode) -> bool {
    e.error == ErrorKind::Db(DbError::ContributorNotFound) && e.code is None
}

fn lookup(db: &ContributorsDB, c: &Contributor) -> (r: Result<(usize, ContributorRow), ErrorWithCode>)
    ensures
        match r {
            Ok((p, row)) => exists|i: int| has_key_at(db@, c.verifying_key@, i) && row == db@[i] && p == spec_pos(db@, i),
            Err(e) => not_found(e) && !has_key(db@, c.verifying_key@),
        },
{
    match db.get_with_pos(c) {
        Ok(found) => Ok(found),
        Err(e) => Err(ErrorWithCode { error: ErrorKind::Db(e), code: None }),
    }
}

/// The contributor who finished last, if any.
fn previous_contributor(db: &ContributorsDB) -> (r: Option<Contributor>)
    requires
        db.wf(),
    ensures
        is_previous(db@, r),
{
    db.get_most_recent_finished_contributor()
}

proof fn lemma_key_unique(s: Seq<ContributorRow>, key: Seq<u8>, i: int, j: int)
    requires
        crate::db::db_wf(s),
        has_key_at(s, key, i),
        has_key_at(s, key, j),
    ensures
        i == j,
{
}

/// A join request: a contributor who has not joined, or was kicked, is queued as
/// of `now`; a queued or finished contributor is refused with 400.
pub fn handle_join(
    db: &mut ContributorsDB,
    c: &Contributor,
    now: i128,
    test_download_secs: u64,
    test_compute_secs: u64,
    test_upload_secs: u64,
) -> (r: Result<ContributorRow, ErrorWithCode>)
    requires
        old(db).wf(),
        is_time(now),
    ensures
        final(db).wf(),
        match r {
            Ok(row) => exists|i: int| has_key_at(old(db)@, c.verifying_key@, i)
                && (old(db)@[i].status == ContributorStatus::DidntJoinQueue || old(db)@[i].status == ContributorStatus::Kicked)
                && row == spec_enqueue(old(db)@[i], now, test_download_secs, test_compute_secs, test_upload_secs)
                && final(db)@ == old(db)@.update(i, row),
            Err(e) => final(db)@ == old(db)@ && (
                (not_found(e) && !has_key(old(db)@, c.verifying_key@))
                || (exists|i: int| has_key_at(old(db)@, c.verifying_key@, i)
                    && old(db)@[i].status == ContributorStatus::Queued
                    && e.error == ErrorKind::AlreadyInQueue && e.code == Some(BAD_REQUEST))
                || (exists|i: int| has_key_at(old(db)@, c.verifying_key@, i)
                    && old(db)@[i].status == ContributorStatus::Finished
                    && e.error == ErrorKind::AlreadyFinished && e.code == Some(BAD_REQUEST))),
        },
{
    let (_, row) = lookup(db, c)?;
    match row.status {
        ContributorStatus::DidntJoinQueue | ContributorStatus::Kicked => {
            let ghost s = db@;
            let ghost i = choose|i: int| has_key_at(s, c.verifying_key@, i) && row == s[i];
            match db.enqueue(c, now, test_download_secs, test_compute_secs, test_upload_secs) {
                Ok(new_row) => Ok(new_row),
                Err(e) => {
                    proof {
                        assert(has_key_at(s, c.verifying_key@, i));
                        assert(false);
                    }
                    Err(ErrorWithCode { error: ErrorKind::Db(e), code: None })
                },
            }
        },
        ContributorStatus::Queued => Err(ErrorWithCode { error: ErrorKind::AlreadyInQueue, code: Some(BAD_REQUEST) }),
        ContributorStatus::Finished => Err(ErrorWithCode { error: ErrorKind::AlreadyFinished, code: Some(BAD_REQUEST) }),
    }
}

/// Why a progress update does not fit the contributor's state, if it does not:
/// a kicked contributor gets 410 with its kick reason, a contributor who is not
/// the active one gets 410, and a step other than the expected one gets 400.
pub open spec fn state_error(pos: int, row: ContributorRow, expected: CurrentContributionStep) -> Option<(ErrorKind, u16)> {
    if row.status == ContributorStatus::Kicked {
        Some((ErrorKind::Kicked { reason: row.kicked_error->0 }, GONE))
    } else if pos > 0 {
        Some((ErrorKind::NotCurrentContributor, GONE))
    } else if !same_variant(spec_step(row), expected) {
        Some((ErrorKind::WrongStep { current: spec_step(row), expected }, BAD_REQUEST))
    } else {
        None
    }
}

/// Checks that a progress update fits the contributor's state (see `state_error`).
pub fn check_correct_state(pos: usize, row: &ContributorRow, expected: CurrentContributionStep) -> (r: Result<(), ErrorWithCode>)
    requires
        row.status == ContributorStatus::Kicked ==> row.kicked_error is Some,
    ensures
        match (r, state_error(pos as int, *row, expected)) {
            (Ok(()), None) => true,
            (Err(e), Some((k, code))) => e.error == k && e.code == Some(code),
            _ => false,
        },
{
    if row.status == ContributorStatus::Kicked {
        let reason = match &row.kicked_error {
            Some(reason) => reason.clone(),
            None => String::new(),
        };
        Err(ErrorWithCode { error: ErrorKind::Kicked { reason }, code: Some(GONE) })
    } else if pos > 0 {
        Err(ErrorWithCode { error: ErrorKind::NotCurrentContributor, code: Some(GONE) })
    } else {
        let current = row.get_current_contribution_step();
        if !steps_same_variant(&current, &expected) {
            Err(ErrorWithCode { error: ErrorKind::WrongStep { current, expected }, code: Some(BAD_REQUEST) })
        } else {
            Ok(())
        }
    }
}

/// The outcome of a progress update for row `i` expecting `expected`: the row
/// after the update when the update fits, with `next` the row it becomes when the
/// step is finished.
pub open spec fn progress_ok(
    old_s: Seq<ContributorRow>,
    new_s: Seq<ContributorRow>,
    key: Seq<u8>,
    expected: CurrentContributionStep,
    finished: bool,
    next: spec_fn(ContributorRow) -> ContributorRow,
    now: i128,
    row: ContributorRow,
) -> bool {
    exists|i: int| has_key_at(old_s, key, i) && state_error(spec_pos(old_s, i) as int, old_s[i], expected) is None
        && row == (if finished { next(old_s[i]) } else { spec_update_timestamp(old_s[i], now) })
        && new_s == old_s.update(i, row)
}

/// The refusal of a progress update that does not fit.
pub open spec fn progress_refused(s: Seq<ContributorRow>, key: Seq<u8>, expected: CurrentContributionStep, e: ErrorWithCode) -> bool {
    ||| (not_found(e) && !has_key(s, key))
    ||| exists|i: int| has_key_at(s, key, i)
        && (state_error(spec_pos(s, i) as int, s[i], expected) matches Some((k, code))
        && e.error == k && e.code == Some(code))
}

/// A progress update from the download phase: while downloading the contributor
/// just pings; when done, its computation starts at `now`.
pub fn handle_update_download_progress(db: &mut ContributorsDB, finished: bool, c: &Contributor, now: i128)
    -> (r: Result<ContributorRow, ErrorWithCode>)
    requires
        old(db).wf(),
        is_time(now),
    ensures
        final(db).wf(),
        match r {
            Ok(row) => progress_ok(old(db)@, final(db)@, c.verifying_key@, CurrentContributionStep::DownloadStarted { start: now },
                finished, |r: ContributorRow| spec_mark_started_compute(r, now), now, row),
            Err(e) => final(db)@ == old(db)@
                && progress_refused(old(db)@, c.verifying_key@, CurrentContributionStep::DownloadStarted { start: now }, e),
        },
{
    let ghost s = db@;
    let (pos, row) = lookup(db, c)?;
    let ghost i = choose|i: int| has_key_at(s, c.verifying_key@, i) && row == s[i] && pos == spec_pos(s, i);
    proof { assert(s[i].wf()); }
    check_correct_state(pos, &row, CurrentContributionStep::DownloadStarted { start: now })?;
    let new_row = if finished { row.mark_started_compute(now) } else { row.update_timestamp(now) };
    let _ = db.update(new_row.clone());
    proof {
        let k = choose|k: int| has_key_at(s, new_row.verifying_key@, k) && db@ == s.update(k, new_row);
        lemma_key_unique(s, c.verifying_key@, i, k);
    }
    Ok(new_row)
}

/// A progress update from the compute phase: while computing the contributor
/// just pings; when done, its upload starts at `now`.
pub fn handle_update_compute_progress(db: &mut ContributorsDB, finished: bool, c: &Contributor, now: i128)
    -> (r: Result<ContributorRow, ErrorWithCode>)
    requires
        old(db).wf(),
        is_time(now),
    ensures
        final(db).wf(),
        match r {
            Ok(row) => progress_ok(old(db)@, final(db)@, c.verifying_key@, CurrentContributionStep::ComputeStarted { start: now },
                finished, |r: ContributorRow| spec_mark_started_upload(r, now), now, row),
            Err(e) => final(db)@ == old(db)@
                && progress_refused(old(db)@, c.verifying_key@, CurrentContributionStep::ComputeStarted { start: now }, e),
        },
{
    let ghost s = db@;
    let (pos, row) = lookup(db, c)?;
    let ghost i = choose|i: int| has_key_at(s, c.verifying_key@, i) && row == s[i] && pos == spec_pos(s, i);
    proof { assert(s[i].wf()); }
    check_correct_state(pos, &row, CurrentContributionStep::ComputeStarted { start: now })?;
    let new_row = if finished { row.mark_started_upload(now) } else { row.update_timestamp(now) };
    let _ = db.update(new_row.clone());
    proof {
        let k = choose|k: int| has_key_at(s, new_row.verifying_key@, k) && db@ == s.update(k, new_row);
        lemma_key_unique(s, c.verifying_key@, i, k);
    }
    Ok(new_row)
}

/// A progress update from the upload phase: while uploading the contributor just
/// pings; when done, the upload is recorded as finished at `now` with the
/// announced hash, and the contribution is to be verified.
pub fn handle_update_upload_progress(db: &mut ContributorsDB, finished: bool, hash: String, c: &Contributor, now: i128)
    -> (r: Result<ContributorRow, ErrorWithCode>)
    requires
        old(db).wf(),
        is_time(now),
    ensures
        final(db).wf(),
        match r {
            Ok(row) => progress_ok(old(db)@, final(db)@, c.verifying_key@, CurrentContributionStep::UploadStarted { start: now },
                finished, |r: ContributorRow| spec_mark_finished_upload(r, hash, now), now, row),
            Err(e) => final(db)@ == old(db)@
                && progress_refused(old(db)@, c.verifying_key@, CurrentContributionStep::UploadStarted { start: now }, e),
        },
{
    let ghost s = db@;
    let ghost h = hash;
    let (pos, row) = lookup(db, c)?;
    let ghost i = choose|i: int| has_key_at(s, c.verifying_key@, i) && row == s[i] && pos == spec_pos(s, i);
    proof { assert(s[i].wf()); }
    check_correct_state(pos, &row, CurrentContributionStep::UploadStarted { start: now })?;
    let new_row = if finished { row.mark_finished_upload(hash, now) } else { row.update_timestamp(now) };
    let _ = db.update(new_row.clone());
    proof {
        let k = choose|k: int| has_key_at(s, new_row.verifying_key@, k) && db@ == s.update(k, new_row);
        lemma_key_unique(s, c.verifying_key@, i, k);
    }
    Ok(new_row)
}


/// The plan answered to a status request for row `i` of the table (before the
/// request), given the last finished contributor.
pub open spec fn spec_status_plan(s: Seq<ContributorRow>, i: int, plan: StatusPlan) -> bool {
    let row = s[i];
    match row.status {
        ContributorStatus::DidntJoinQueue => plan == StatusPlan::Respond(StatusResponse::DidntJoin),
        ContributorStatus::Finished => plan == StatusPlan::Respond(StatusResponse::Finished),
        ContributorStatus::Kicked => plan matches StatusPlan::Respond(StatusResponse::Kicked(reason))
            && reason@ == (if row.kicked_error is Some { row.kicked_error->0@ } else { Seq::<char>::empty() }),
        ContributorStatus::Queued => if spec_pos(s, i) > 0 {
            plan == StatusPlan::Respond(StatusResponse::WaitingInQueue(spec_pos(s, i) as usize))
        } else {
            match spec_step(row) {
                CurrentContributionStep::DownloadNotStarted => plan matches StatusPlan::DownloadPrevious { previous }
                    && is_previous(s, previous),
                CurrentContributionStep::DownloadStarted { .. } => plan matches StatusPlan::DownloadPrevious { previous }
                    && is_previous(s, previous),
                CurrentContributionStep::ComputeStarted { .. } => plan matches StatusPlan::ContributeWithPrevious { previous }
                    && is_previous(s, previous),
                CurrentContributionStep::UploadStarted { .. } => plan == StatusPlan::Upload,
                CurrentContributionStep::Verifying => plan == StatusPlan::Respond(StatusResponse::Verifying),
            }
        },
    }
}

/// How a status request changes row `i`: its update time becomes `now`, and the
/// active contributor who has not started downloading starts now.
pub open spec fn spec_status_row(s: Seq<ContributorRow>, i: int, now: i128) -> ContributorRow {
    let row = s[i];
    if row.status == ContributorStatus::Queued && spec_pos(s, i) == 0 && spec_step(row) == CurrentContributionStep::DownloadNotStarted {
        spec_mark_started_download(spec_update_timestamp(row, now), now)
    } else {
        spec_update_timestamp(row, now)
    }
}

/// A status request: every answer refreshes the contributor's update time; the
/// answer follows `spec_status_plan`; the table changes as `spec_status_row` says.
/// Returns the plan and the contributor's row as stored afterwards.
pub fn handle_get_status(db: &mut ContributorsDB, c: &Contributor, now: i128)
    -> (r: Result<(StatusPlan, ContributorRow), ErrorWithCode>)
    requires
        old(db).wf(),
        is_time(now),
    ensures
        final(db).wf(),
        match r {
            Ok((plan, row)) => exists|i: int| has_key_at(old(db)@, c.verifying_key@, i)
                && spec_status_plan(old(db)@, i, plan)
                && row == spec_status_row(old(db)@, i, now)
                && final(db)@ == old(db)@.update(i, row),
            Err(e) => final(db)@ == old(db)@ && not_found(e) && !has_key(old(db)@, c.verifying_key@),
        },
{
    let ghost s = db@;
    let (pos, row) = lookup(db, c)?;
    let ghost i = choose|i: int| has_key_at(s, c.verifying_key@, i) && row == s[i] && pos == spec_pos(s, i);
    proof { assert(s[i].wf()); }
    let refreshed = row.update_timestamp(now);
    let (plan, stored) = match row.status {
        ContributorStatus::DidntJoinQueue => (StatusPlan::Respond(StatusResponse::DidntJoin), refreshed),
        ContributorStatus::Kicked => {
            let reason = match &row.kicked_error {
                Some(reason) => reason.clone(),
                None => String::new(),
            };
            (StatusPlan::Respond(StatusResponse::Kicked(reason)), refreshed)
        },
        ContributorStatus::Finished => (StatusPlan::Respond(StatusResponse::Finished), refreshed),
        ContributorStatus::Queued => {
            if pos > 0 {
                (StatusPlan::Respond(StatusResponse::WaitingInQueue(pos)), refreshed)
            } else {
                match row.get_current_contribution_step() {
                    CurrentContributionStep::DownloadNotStarted => {
                        let previous = previous_contributor(db);
                        (StatusPlan::DownloadPrevious { previous }, refreshed.mark_started_download(now))
                    },
                    CurrentContributionStep::DownloadStarted { .. } => {
                        let previous = previous_contributor(db);
                        (StatusPlan::DownloadPrevious { previous }, refreshed)
                    },
                    CurrentContributionStep::ComputeStarted { .. } => {
                        let previous = previous_contributor(db);
                        (StatusPlan::ContributeWithPrevious { previous }, refreshed)
                    },
                    CurrentContributionStep::UploadStarted { .. } => (StatusPlan::Upload, refreshed),
                    CurrentContributionStep::Verifying => (StatusPlan::Respond(StatusResponse::Verifying), refreshed),
                }
            }
        },
    };
    let _ = db.update(stored.clone());
    proof {
        let k = choose|k: int| has_key_at(s, stored.verifying_key@, k) && db@ == s.update(k, stored);
        lemma_key_unique(s, c.verifying_key@, i, k);
    }
    Ok((plan, stored))
}

/// Registers a contributor who has not joined the queue yet.
pub fn handle_register(db: &mut ContributorsDB, c: &Contributor, now: i128) -> (r: Result<(), ErrorWithCode>)
    requires
        old(db).wf(),
        is_time(now),
    ensures
        final(db).wf(),
        match r {
            Ok(()) => !has_key(old(db)@, c.verifying_key@)
                && final(db)@ == old(db)@.push(crate::store::spec_new_row(*c, now)),
            Err(e) => has_key(old(db)@, c.verifying_key@) && final(db)@ == old(db)@
                && e.error == ErrorKind::Db(DbError::AlreadyRegistered) && e.code is None,
        },
{
    match db.register(c, now) {
        Ok(()) => Ok(()),
        Err(e) => Err(ErrorWithCode { error: ErrorKind::Db(e), code: None }),
    }
}

/// The administrator's report: the active contributor's step and all rows with
/// their positions.
pub fn handle_report(db: &ContributorsDB) -> (r: ReportResponse)
    requires
        db.wf(),
    ensures
        match r.status {
            None => !any_queued(db@),
            Some(step) => exists|i: int| current_index(db@, i) && step == spec_step(db@[i]),
        },
        r.contributors@.len() == db@.len(),
        forall|i: int| 0 <= i < db@.len() ==> (#[trigger] r.contributors@[i]).1 == db@[i]
            && r.contributors@[i].0 == spec_pos(db@, i),
{
    let contributors = db.get_contributors();
    let status = match db.get_current() {
        Some(c) => Some(c.get_current_contribution_step()),
        None => None,
    };
    ReportResponse { status, contributors }
}

/// The finished contributors in the order they finished, for bulk download.
pub fn handle_download_all(db: &ContributorsDB) -> (r: Vec<ContributorRow>)
    ensures
        sorted_by_verify_time(r@),
        r@.to_multiset() == finished_rows(db@).to_multiset(),
{
    db.get_finished_contributors()
}

/// The contributor who finished last; refused with 404 when nobody has finished.
pub fn handle_download_latest(db: &ContributorsDB) -> (r: Result<Contributor, ErrorWithCode>)
    requires
        db.wf(),
    ensures
        match r {
            Ok(c) => is_previous(db@, Some(c)),
            Err(e) => !any_finished(db@) && e.error == ErrorKind::NoContributionsYet && e.code == Some(NOT_FOUND),
        },
{
    match db.get_most_recent_finished_contributor() {
        Some(c) => Ok(c),
        None => Err(ErrorWithCode { error: ErrorKind::NoContributionsYet, code: Some(NOT_FOUND) }),
    }
}

/// Records the result of verifying the active contributor's contribution: a
/// passing contribution finishes the contributor, a failing one kicks it with the
/// given reason.
pub fn record_verification(db: &mut ContributorsDB, failure: Option<String>, now: i128) -> (r: Result<ContributorRow, DbError>)
    requires
        old(db).wf(),
        is_time(now),
    ensures
        final(db).wf(),
        match r {
            Ok(row) => exists|i: int| current_index(old(db)@, i) && final(db)@ == old(db)@.update(i, row)
                && match failure {
                    None => row == spec_mark_finished_verify(old(db)@[i], now),
                    Some(reason) => row.kicked_error is Some && row.kicked_error->0@ == reason@
                        && row == spec_mark_kicked(old(db)@[i], row.kicked_error, now),
                },
            Err(e) => e == DbError::NoCurrentContributor && !any_queued(old(db)@) && final(db)@ == old(db)@,
        },
{
    match failure {
        None => db.finish_current(now),
        Some(reason) => db.kick_current(reason.as_str(), now),
    }
}


/// Which deadline the active contributor missed.
#[derive(Debug, Clone, Copy, PartialEq, Eq, Structural)]
pub enum TimeoutPhase {
    Ping,
    Download,
    Compute,
    Upload,
}

pub open spec fn phase_word(p: TimeoutPhase) -> Seq<char> {
    match p {
        TimeoutPhase::Ping => "ping"@,
        TimeoutPhase::Download => "download"@,
        TimeoutPhase::Compute => "compute"@,
        TimeoutPhase::Upload => "upload"@,
    }
}

fn phase_str(p: TimeoutPhase) -> (s: &'static str)
    ensures
        s@ == phase_word(p),
{
    match p {
        TimeoutPhase::Ping => "ping",
        TimeoutPhase::Download => "download",
        TimeoutPhase::Compute => "compute",
        TimeoutPhase::Upload => "upload",
    }
}

/// The debug text of a `chrono::TimeDelta` whose fields hold `secs` and `nanos`.
pub open spec fn time_delta_text(secs: int, nanos: int) -> Seq<char> {
    "TimeDelta { secs: "@ + signed_decimal(secs) + ", nanos: "@ + signed_decimal(nanos) + " }"@
}

/// The debug text of a duration of `d` nanoseconds: whole seconds rounded down,
/// and the nanoseconds left over.
pub open spec fn duration_text(d: int) -> Seq<char> {
    time_delta_text(d / 1_000_000_000, d % 1_000_000_000)
}

/// A duration in nanoseconds that a `chrono::TimeDelta` can hold, whole seconds
/// within `i64::MAX / 1000` either way.
pub open spec fn duration_in_range(d: int) -> bool {
    -(i64::MAX / 1000) * 1_000_000_000 <= d <= (i64::MAX / 1000) * 1_000_000_000
}

/// Formats `chrono::TimeDelta::new(secs, nanos)` with the `Debug` that the struct
/// derives over its two fields, which `new` sets to `secs` and `nanos`. `new`
/// returns `None` only for `nanos` of a second or more and for durations beyond
/// `i64::MAX` milliseconds either way; the precondition excludes both.
#[verifier::external_body]
fn time_delta_debug(secs: i64, nanos: u32) -> (s: String)
    requires
        -(i64::MAX / 1000) <= secs <= i64::MAX / 1000,
        nanos < 1_000_000_000,
        secs == i64::MAX / 1000 ==> nanos == 0,
    ensures
        s@ == time_delta_text(secs as int, nanos as int),
{
    format!("{:?}", chrono::TimeDelta::new(secs, nanos).unwrap())
}

/// Splits a duration of `d` nanoseconds into whole seconds, rounded down, and the
/// nanoseconds left over.
fn split_duration(d: i128) -> (r: (i64, u32))
    requires
        duration_in_range(d as int),
    ensures
        r.0 == d / 1_000_000_000,
        r.1 == d % 1_000_000_000,
{
    if d >= 0 {
        let q: i128 = d / 1_000_000_000;
        let m: i128 = d % 1_000_000_000;
        assert(q <= i64::MAX / 1000) by (nonlinear_arith)
            requires q == d / 1_000_000_000, d <= (i64::MAX / 1000) * 1_000_000_000, d >= 0;
        (q as i64, m as u32)
    } else {
        let e: i128 = 0 - d;
        let q: i128 = e / 1_000_000_000;
        let m: i128 = e % 1_000_000_000;
        assert(e == q * 1_000_000_000 + m && 0 <= m < 1_000_000_000) by (nonlinear_arith)
            requires q == e / 1_000_000_000, m == e % 1_000_000_000, e > 0;
        assert(q <= i64::MAX / 1000) by (nonlinear_arith)
            requires q == e / 1_000_000_000, e <= (i64::MAX / 1000) * 1_000_000_000, e > 0;
        if m == 0 {
            assert(d == (0 - q) * 1_000_000_000);
            assert(d / 1_000_000_000 == 0 - q && d % 1_000_000_000 == 0) by (nonlinear_arith)
                requires d == (0 - q) * 1_000_000_000;
            ((0 - q) as i64, 0)
        } else {
            assert(d == (0 - q - 1) * 1_000_000_000 + (1_000_000_000 - m));
            assert(d / 1_000_000_000 == 0 - q - 1 && d % 1_000_000_000 == 1_000_000_000 - m) by (nonlinear_arith)
                requires d == (0 - q - 1) * 1_000_000_000 + (1_000_000_000 - m), 0 < m < 1_000_000_000;
            assert(0 - q - 1 >= -(i64::MAX / 1000)) by (nonlinear_arith)
                requires e == q * 1_000_000_000 + m, e <= (i64::MAX / 1000) * 1_000_000_000, 0 < m;
            ((0 - q - 1) as i64, (1_000_000_000 - m) as u32)
        }
    }
}

/// The debug text of a duration of `d` nanoseconds.
fn duration_debug(d: i128) -> (s: String)
    requires
        duration_in_range(d as int),
    ensures
        s@ == duration_text(d as int),
{
    let (secs, nanos) = split_duration(d);
    assert(secs == i64::MAX / 1000 ==> nanos == 0) by (nonlinear_arith)
        requires secs == d / 1_000_000_000, nanos == d % 1_000_000_000, d <= (i64::MAX / 1000) * 1_000_000_000,
            0 <= nanos;
    time_delta_debug(secs, nanos)
}

/// The kick reason for a missed deadline: the phase, the time it took and the
/// timeout.
pub open spec fn spec_timeout_message(phase: Seq<char>, elapsed: int, timeout: int) -> Seq<char> {
    "Timed out: "@ + phase + " time "@ + duration_text(elapsed) + " exceeded timeout of "@ + duration_text(timeout)
}

/// The reason given to a contributor kicked for silence starts with
/// `Timed out: ping time `.
pub proof fn lemma_ping_timeout_reason(elapsed: int, timeout: int)
    ensures
        spec_timeout_message(phase_word(TimeoutPhase::Ping), elapsed, timeout).subrange(0, 21)
            == "Timed out: ping time "@,
{
    reveal_strlit("Timed out: ");
    reveal_strlit("ping");
    reveal_strlit(" time ");
    reveal_strlit("Timed out: ping time ");
    let m = spec_timeout_message(phase_word(TimeoutPhase::Ping), elapsed, timeout);
    let head = "Timed out: "@ + "ping"@ + " time "@;
    assert(m == head + (duration_text(elapsed) + " exceeded timeout of "@ + duration_text(timeout)));
    assert(m.subrange(0, 21) =~= head);
    assert(head =~= "Timed out: ping time "@);
}

fn timeout_message(phase: &str, elapsed_ns: i128, timeout_ns: i128) -> (s: String)
    requires
        duration_in_range(elapsed_ns as int),
        duration_in_range(timeout_ns as int),
    ensures
        s@ == spec_timeout_message(phase@, elapsed_ns as int, timeout_ns as int),
{
    let elapsed = duration_debug(elapsed_ns);
    let timeout = duration_debug(timeout_ns);
    let mut s = String::from_str("Timed out: ");
    s.append(phase);
    s.append(" time ");
    s.append(elapsed.as_str());
    s.append(" exceeded timeout of ");
    s.append(timeout.as_str());
    proof {
        reveal_strlit("Timed out: ");
        reveal_strlit(" time ");
        reveal_strlit(" exceeded timeout of ");
    }
    s
}

/// What a tick did.
#[derive(Debug)]
pub enum TickOutcome {
    /// Nobody is queued.
    NoCurrentContributor,
    /// The active contributor missed a deadline and was kicked; its new row.
    Kicked { phase: TimeoutPhase, elapsed_ns: i128, timeout_ns: i128, row: ContributorRow },
    /// The active contributor had not started downloading; it starts now. Its new row.
    StartedDownload { row: ContributorRow },
    /// Nothing to do.
    Unchanged,
}

/// The deadline the active contributor `r` has missed at `now`, if any, with the
/// time taken and the timeout. A contributor whose upload is being verified is
/// never timed out: its contribution can be finished without it. Otherwise,
/// silence longer than the ping timeout comes first, then a download,
/// computation or upload running longer than its timeout.
pub open spec fn missed_deadline(r: ContributorRow, now: i128, config: Config) -> Option<(TimeoutPhase, int, int)> {
    if spec_step(r) == CurrentContributionStep::Verifying {
        None
    } else if now - r.updated_timestamp > config.ping_timeout_secs * 1_000_000_000 {
        Some((TimeoutPhase::Ping, now - r.updated_timestamp, config.ping_timeout_secs * 1_000_000_000))
    } else {
        match spec_step(r) {
            CurrentContributionStep::DownloadStarted { start } => if now - start > config.download_timeout_secs * 1_000_000_000 {
                Some((TimeoutPhase::Download, now - start, config.download_timeout_secs * 1_000_000_000))
            } else {
                None
            },
            CurrentContributionStep::ComputeStarted { start } => if now - start > config.contribute_timeout_secs * 1_000_000_000 {
                Some((TimeoutPhase::Compute, now - start, config.contribute_timeout_secs * 1_000_000_000))
            } else {
                None
            },
            CurrentContributionStep::UploadStarted { start } => if now - start > config.upload_timeout_secs * 1_000_000_000 {
                Some((TimeoutPhase::Upload, now - start, config.upload_timeout_secs * 1_000_000_000))
            } else {
                None
            },
            _ => None,
        }
    }
}

/// What a tick at `now` does to the table `s` and answers.
pub open spec fn spec_tick(s: Seq<ContributorRow>, t: Seq<ContributorRow>, now: i128, config: Config, out: TickOutcome) -> bool {
    if !any_queued(s) {
        out == TickOutcome::NoCurrentContributor && t == s
    } else {
        exists|i: int| current_index(s, i) && (match missed_deadline(s[i], now, config) {
            Some((phase, elapsed, timeout)) => out matches TickOutcome::Kicked { phase: p, elapsed_ns, timeout_ns, row }
                && p == phase && elapsed_ns == elapsed && timeout_ns == timeout
                && row.kicked_error is Some
                && row.kicked_error->0@ == spec_timeout_message(phase_word(phase), elapsed, timeout)
                && row == spec_mark_kicked(s[i], row.kicked_error, now)
                && t == s.update(i, row),
            None => if spec_step(s[i]) == CurrentContributionStep::DownloadNotStarted {
                out matches TickOutcome::StartedDownload { row }
                    && row == spec_mark_started_download(s[i], now)
                    && t == s.update(i, row)
            } else {
                out == TickOutcome::Unchanged && t == s
            },
        })
    }
}

fn kick_for(db: &mut ContributorsDB, phase: TimeoutPhase, elapsed_ns: i128, timeout_ns: i128, now: i128)
    -> (out: TickOutcome)
    requires
        old(db).wf(),
        is_time(now),
        any_queued(old(db)@),
        duration_in_range(elapsed_ns as int),
        duration_in_range(timeout_ns as int),
    ensures
        final(db).wf(),
        exists|i: int| current_index(old(db)@, i)
            && (out matches TickOutcome::Kicked { phase: p, elapsed_ns: e, timeout_ns: to, row }
            && p == phase && e == elapsed_ns && to == timeout_ns
            && row.kicked_error is Some
            && row.kicked_error->0@ == spec_timeout_message(phase_word(phase), elapsed_ns as int, timeout_ns as int)
            && row == spec_mark_kicked(old(db)@[i], row.kicked_error, now)
            && final(db)@ == old(db)@.update(i, row)),
{
    let message = timeout_message(phase_str(phase), elapsed_ns, timeout_ns);
    match db.kick_current(message.as_str(), now) {
        Ok(row) => TickOutcome::Kicked { phase, elapsed_ns, timeout_ns, row },
        Err(_) => TickOutcome::NoCurrentContributor,
    }
}

proof fn lemma_current_unique(s: Seq<ContributorRow>, i: int, j: int)
    requires
        current_index(s, i),
        current_index(s, j),
    ensures
        i == j,
{
}

/// The periodic check of the active contributor: one whose upload is being
/// verified is left alone; otherwise one who has been silent longer than the
/// ping timeout, or whose download, computation or upload has run longer
/// than its timeout, is kicked with a reason naming the deadline; one who has not
/// started downloading is marked as downloading from now.
pub fn handle_tick(db: &mut ContributorsDB, now: i128, config: &Config) -> (out: TickOutcome)
    requires
        old(db).wf(),
        is_time(now),
        config.timeouts_in_range(),
    ensures
        final(db).wf(),
        spec_tick(old(db)@, final(db)@, now, *config, out),
{
    let ghost s = db@;
    let current = match db.get_current() {
        Some(c) => c,
        None => return TickOutcome::NoCurrentContributor,
    };
    let ghost i = choose|i: int| current_index(s, i) && current == s[i];
    proof { assert(s[i].wf()); }
    let step = current.get_current_contribution_step();
    if step == CurrentContributionStep::Verifying {
        return TickOutcome::Unchanged;
    }
    let ping = config.ping_timeout();
    let silence = now - current.updated_timestamp;
    if silence > ping {
        let out = kick_for(db, TimeoutPhase::Ping, silence, ping, now);
        proof {
            let k = choose|k: int| current_index(s, k) && (out matches TickOutcome::Kicked { row, .. } && db@ == s.update(k, row));
            lemma_current_unique(s, i, k);
        }
        return out;
    }
    let out = match step {
        CurrentContributionStep::DownloadNotStarted => {
            let row = current.mark_started_download(now);
            let ghost before = db@;
            assert(has_key_at(before, row.verifying_key@, i));
            let _ = db.update(row.clone());
            proof {
                let k = choose|k: int| has_key_at(before, row.verifying_key@, k) && db@ == before.update(k, row);
                lemma_key_unique(before, row.verifying_key@, i, k);
            }
            TickOutcome::StartedDownload { row }
        },
        CurrentContributionStep::DownloadStarted { start } => {
            let timeout = config.download_timeout();
            if now - start > timeout {
                kick_for(db, TimeoutPhase::Download, now - start, timeout, now)
            } else {
                TickOutcome::Unchanged
            }
        },
        CurrentContributionStep::ComputeStarted { start } => {
            let timeout = config.contribute_timeout();
            if now - start > timeout {
                kick_for(db, TimeoutPhase::Compute, now - start, timeout, now)
            } else {
                TickOutcome::Unchanged
            }
        },
        CurrentContributionStep::UploadStarted { start } => {
            let timeout = config.upload_timeout();
            if now - start > timeout {
                kick_for(db, TimeoutPhase::Upload, now - start, timeout, now)
            } else {
                TickOutcome::Unchanged
            }
        },
        CurrentContributionStep::Verifying => TickOutcome::Unchanged,
    };
    proof {
        match &out {
            TickOutcome::Kicked { row, .. } => {
                let k = choose|k: int| current_index(s, k) && db@ == s.update(k, *row);
                lemma_current_unique(s, i, k);
            },
            _ => {},
        }
    }
    out
}

} // verus!
