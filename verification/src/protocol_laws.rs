use vstd::prelude::*;
use crate::config::Config;
use crate::contributor::Contributor;
use crate::db::{db_wf, current_index, is_current, has_key_at, spec_pos, any_queued};
use crate::error::{ErrorKind, ErrorWithCode, BAD_REQUEST, GONE};
use crate::handlers::{spec_timeout_message, phase_word, duration_text, spec_tick, spec_status_plan, spec_status_row, state_error, progress_ok, progress_refused, is_previous,
    TickOutcome, TimeoutPhase, StatusPlan, StatusResponse};
use crate::keys::ed25519_accepts;
use crate::messages::{Msg, required_signer, is_admin_request};
use crate::store::{ContributorRow, ContributorStatus, CurrentContributionStep, spec_enqueue, spec_step, spec_update_timestamp,
    spec_mark_started_download, spec_mark_started_compute, spec_mark_started_upload, spec_mark_finished_upload,
    spec_mark_finished_verify, spec_mark_kicked};

verus! {

// Laws of the server protocol, stated over the contracts of the handlers: what
// a tick does to the active contributor at each step, what a status request
// answers, how progress from a kicked contributor is answered, what joining the
// queue records, and whose key must sign each request.

/// One second, in nanoseconds.
pub open spec fn secs(n: i64) -> int {
    n * 1_000_000_000
}

/// How the kick reason for a missed deadline begins.
pub open spec fn reason_prefix(phase: TimeoutPhase) -> Seq<char> {
    match phase {
        TimeoutPhase::Ping => "Timed out: ping time "@,
        TimeoutPhase::Download => "Timed out: download time "@,
        TimeoutPhase::Compute => "Timed out: compute time "@,
        TimeoutPhase::Upload => "Timed out: upload time "@,
    }
}

/// `text` begins with `prefix`.
pub open spec fn starts_with(text: Seq<char>, prefix: Seq<char>) -> bool {
    prefix.len() <= text.len() && text.subrange(0, prefix.len() as int) == prefix
}

/// The kick reason for a missed deadline names the deadline: it begins with
/// `Timed out: `, the stage (`ping`, `download`, `compute` or `upload`) and ` time `.
pub proof fn lemma_timeout_reason_names_phase(phase: TimeoutPhase, elapsed: int, timeout: int)
    ensures
        starts_with(spec_timeout_message(phase_word(phase), elapsed, timeout), reason_prefix(phase)),
{
    reveal_strlit("Timed out: ");
    reveal_strlit(" time ");
    reveal_strlit("ping");
    reveal_strlit("download");
    reveal_strlit("compute");
    reveal_strlit("upload");
    reveal_strlit("Timed out: ping time ");
    reveal_strlit("Timed out: download time ");
    reveal_strlit("Timed out: compute time ");
    reveal_strlit("Timed out: upload time ");
    let m = spec_timeout_message(phase_word(phase), elapsed, timeout);
    let head = "Timed out: "@ + phase_word(phase) + " time "@;
    assert(m == head + (duration_text(elapsed) + " exceeded timeout of "@ + duration_text(timeout)));
    assert(head =~= reason_prefix(phase));
    assert(m.subrange(0, head.len() as int) =~= head);
}

/// The tick kicked row `i` at `now` for missing `phase`, reporting `elapsed`
/// against `timeout`; the table is `s` with only that row changed, now kicked.
pub open spec fn kicked_by_tick(
    s: Seq<ContributorRow>,
    t: Seq<ContributorRow>,
    i: int,
    now: i128,
    out: TickOutcome,
    phase: TimeoutPhase,
    elapsed: int,
    timeout: int,
) -> bool {
    out matches TickOutcome::Kicked { phase: p, elapsed_ns, timeout_ns, row }
        && p == phase && elapsed_ns == elapsed && timeout_ns == timeout
        && row.status == ContributorStatus::Kicked
        && row.kicked_at == Some(now)
        && row.updated_timestamp == now
        && row.kicked_error is Some
        && starts_with(row.kicked_error->0@, reason_prefix(phase))
        && row.verifying_key == s[i].verifying_key
        && t == s.update(i, row)
}

/// The tick changed nothing.
pub open spec fn untouched_by_tick(s: Seq<ContributorRow>, t: Seq<ContributorRow>, out: TickOutcome) -> bool {
    out == TickOutcome::Unchanged && t == s
}

/// What the periodic tick does to the active contributor (row `i`), by the
/// progress timestamps of its row:
/// - an uploaded contribution under verification is never timed out;
/// - otherwise, silence longer than the ping timeout is a kick for `Ping`;
/// - otherwise a running upload is held to the upload timeout, a running
///   computation to the contribute timeout, a running download to the download
///   timeout, each measured from that stage's start: past it is a kick naming the
///   stage with the elapsed time and that timeout, within it nothing changes;
/// - a contributor who has not started downloading starts now.
pub proof fn lemma_tick_deadlines(
    s: Seq<ContributorRow>,
    t: Seq<ContributorRow>,
    now: i128,
    config: Config,
    out: TickOutcome,
    i: int,
)
    requires
        db_wf(s),
        current_index(s, i),
        spec_tick(s, t, now, config, out),
    ensures
        s[i].finished_upload_at is Some ==> untouched_by_tick(s, t, out),
        s[i].finished_upload_at is None && now - s[i].updated_timestamp > secs(config.ping_timeout_secs)
            ==> kicked_by_tick(s, t, i, now, out, TimeoutPhase::Ping, now - s[i].updated_timestamp, secs(config.ping_timeout_secs)),
        s[i].finished_upload_at is None && now - s[i].updated_timestamp <= secs(config.ping_timeout_secs)
            ==> ({
            let r = s[i];
            &&& (r.started_upload_at matches Some(st) ==> if now - st > secs(config.upload_timeout_secs) {
                kicked_by_tick(s, t, i, now, out, TimeoutPhase::Upload, now - st, secs(config.upload_timeout_secs))
            } else {
                untouched_by_tick(s, t, out)
            })
            &&& (r.started_upload_at is None && r.started_compute_at is Some ==> ({
                let st = r.started_compute_at->0;
                if now - st > secs(config.contribute_timeout_secs) {
                    kicked_by_tick(s, t, i, now, out, TimeoutPhase::Compute, now - st, secs(config.contribute_timeout_secs))
                } else {
                    untouched_by_tick(s, t, out)
                }
            }))
            &&& (r.started_upload_at is None && r.started_compute_at is None && r.started_download_at is Some ==> ({
                let st = r.started_download_at->0;
                if now - st > secs(config.download_timeout_secs) {
                    kicked_by_tick(s, t, i, now, out, TimeoutPhase::Download, now - st, secs(config.download_timeout_secs))
                } else {
                    untouched_by_tick(s, t, out)
                }
            }))
            &&& (r.started_upload_at is None && r.started_compute_at is None && r.started_download_at is None
                ==> (out matches TickOutcome::StartedDownload { row } && row.started_download_at == Some(now)
                && row.updated_timestamp == now && row.status == r.status && row.verifying_key == r.verifying_key && t == s.update(i, row)))
        }),
{
    assert(any_queued(s)) by {
        assert(s[i].status == ContributorStatus::Queued);
    }
    let r = s[i];
    lemma_timeout_reason_names_phase(TimeoutPhase::Ping, now - r.updated_timestamp, secs(config.ping_timeout_secs));
    lemma_timeout_reason_names_phase(TimeoutPhase::Upload, now - r.started_upload_at->0, secs(config.upload_timeout_secs));
    lemma_timeout_reason_names_phase(TimeoutPhase::Compute, now - r.started_compute_at->0, secs(config.contribute_timeout_secs));
    lemma_timeout_reason_names_phase(TimeoutPhase::Download, now - r.started_download_at->0, secs(config.download_timeout_secs));
    assert forall|k: int| current_index(s, k) implies k == i by {
        if k < i {
            assert(is_current(s, k));
        } else if i < k {
            assert(is_current(s, i));
        }
    }
}

/// What a status request answers contributor `i`, by its status and, for the
/// active contributor, by the progress timestamps of its row: a queued
/// contributor behind others hears its place; the active one is told to download
/// the previous contribution until its computation starts (whether or not its
/// download has started), then to compute with it until its upload starts, then
/// to upload until the upload is finished, then that it is being verified. A
/// kicked contributor hears its kick reason. Every request refreshes the update
/// time, and the download of an active contributor who had not started it starts
/// now.
pub proof fn lemma_status_answers(s: Seq<ContributorRow>, i: int, plan: StatusPlan, now: i128)
    requires
        db_wf(s),
        0 <= i < s.len(),
        spec_status_plan(s, i, plan),
    ensures
        spec_status_row(s, i, now).updated_timestamp == now,
        s[i].status == ContributorStatus::Queued && spec_pos(s, i) > 0
            ==> plan == StatusPlan::Respond(StatusResponse::WaitingInQueue(spec_pos(s, i) as usize)),
        s[i].status == ContributorStatus::Queued && spec_pos(s, i) == 0 ==> ({
            let r = s[i];
            &&& (r.finished_upload_at is None && r.started_upload_at is None && r.started_compute_at is None
                ==> (plan matches StatusPlan::DownloadPrevious { previous } && is_previous(s, previous)))
            &&& (r.finished_upload_at is None && r.started_upload_at is None && r.started_compute_at is Some
                ==> (plan matches StatusPlan::ContributeWithPrevious { previous } && is_previous(s, previous)))
            &&& (r.finished_upload_at is None && r.started_upload_at is Some ==> plan == StatusPlan::Upload)
            &&& (r.finished_upload_at is Some ==> plan == StatusPlan::Respond(StatusResponse::Verifying))
            &&& (r.finished_upload_at is None && r.started_upload_at is None && r.started_compute_at is None
                && r.started_download_at is None ==> spec_status_row(s, i, now).started_download_at == Some(now))
            &&& (r.started_download_at is Some ==> spec_status_row(s, i, now).started_download_at == r.started_download_at)
        }),
        s[i].status == ContributorStatus::Kicked ==> (plan matches StatusPlan::Respond(StatusResponse::Kicked(reason))
            && reason@ == s[i].kicked_error->0@),
        s[i].status == ContributorStatus::DidntJoinQueue ==> plan == StatusPlan::Respond(StatusResponse::DidntJoin),
        s[i].status == ContributorStatus::Finished ==> plan == StatusPlan::Respond(StatusResponse::Finished),
{
}

/// A contributor who was kicked is refused any progress update, whatever the
/// step its row shows and whatever step the update is for: with 410 and its kick
/// reason, and the table does not change.
pub proof fn lemma_kicked_progress_refused(
    s: Seq<ContributorRow>,
    t: Seq<ContributorRow>,
    key: Seq<u8>,
    i: int,
    expected: CurrentContributionStep,
    finished: bool,
    next: spec_fn(ContributorRow) -> ContributorRow,
    now: i128,
    row: ContributorRow,
    e: ErrorWithCode,
)
    requires
        db_wf(s),
        has_key_at(s, key, i),
        s[i].status == ContributorStatus::Kicked,
    ensures
        state_error(spec_pos(s, i) as int, s[i], expected)
            == Some((ErrorKind::Kicked { reason: s[i].kicked_error->0 }, GONE)),
        !progress_ok(s, t, key, expected, finished, next, now, row),
        progress_refused(s, key, expected, e) ==> e.code == Some(GONE)
            && e.error == (ErrorKind::Kicked { reason: s[i].kicked_error->0 }),
{
    if progress_refused(s, key, expected, e) {
        if exists|j: int| has_key_at(s, key, j)
            && (state_error(spec_pos(s, j) as int, s[j], expected) matches Some((k, code))
            && e.error == k && e.code == Some(code)) {
            let j = choose|j: int| has_key_at(s, key, j)
                && (state_error(spec_pos(s, j) as int, s[j], expected) matches Some((k, code))
                && e.error == k && e.code == Some(code));
            assert(j == i) by {
                if j != i {
                    assert(s[j].verifying_key@ != s[i].verifying_key@);
                }
            }
        }
    }
    if progress_ok(s, t, key, expected, finished, next, now, row) {
        let j = choose|j: int| has_key_at(s, key, j) && state_error(spec_pos(s, j) as int, s[j], expected) is None
            && row == (if finished { next(s[j]) } else { crate::store::spec_update_timestamp(s[j], now) })
            && t == s.update(j, row);
        assert(j == i) by {
            if j != i {
                assert(s[j].verifying_key@ != s[i].verifying_key@);
            }
        }
    }
}

/// Joining the queue at `now` is a sign of life: the row is queued as of `now`,
/// its update time is `now`, the measured test times are kept (their low 32
/// bits), every trace of an earlier attempt is cleared, so its contribution has
/// not started, and who it belongs to does not change.
pub proof fn lemma_join_records(r: ContributorRow, now: i128, download_secs: u64, compute_secs: u64, upload_secs: u64)
    ensures
        ({
            let j = spec_enqueue(r, now, download_secs, compute_secs, upload_secs);
            &&& j.status == ContributorStatus::Queued
            &&& j.joined_at == Some(now)
            &&& j.updated_timestamp == now
            &&& j.test_download_secs == Some(download_secs as u32)
            &&& j.test_compute_secs == Some(compute_secs as u32)
            &&& j.test_upload_secs == Some(upload_secs as u32)
            &&& j.kicked_at is None && j.kicked_error is None
            &&& j.started_download_at is None && j.started_compute_at is None
            &&& j.started_upload_at is None && j.finished_upload_at is None
            &&& j.contribution_hash is None
            &&& spec_step(j) == CurrentContributionStep::DownloadNotStarted
            &&& j.verifying_key == r.verifying_key && j.name == r.name && j.email == r.email
        }),
{
}

/// The contributor a request speaks for, if it is not an administrator's request.
pub open spec fn named_contributor(m: Msg) -> Option<Contributor> {
    match m {
        Msg::Join { contributor, .. } => Some(contributor),
        Msg::GetStatus { contributor } => Some(contributor),
        Msg::UpdateDownloadProgress { contributor, .. } => Some(contributor),
        Msg::UpdateComputeProgress { contributor, .. } => Some(contributor),
        Msg::UpdateUploadProgress { contributor, .. } => Some(contributor),
        Msg::GetTestContributionDownloadLink { contributor } => Some(contributor),
        Msg::GetTestContributionUploadLink { contributor } => Some(contributor),
        _ => None,
    }
}

/// Whose key must sign a request: a contributor's request (join, status,
/// progress, test links) is signed by the contributor it names, whatever the
/// administrator's key; registering a contributor, the report and the downloads
/// of contributions are signed by the administrator. So a contributor's request
/// that its own key signed is accepted, and one signed by another key only if
/// that signature also verifies under the contributor's key.
pub proof fn lemma_request_signers(m: Msg, admin: Seq<u8>, other_admin: Seq<u8>, encoded: Seq<u8>, sig: Seq<u8>)
    ensures
        is_admin_request(m) <==> (m is Register || m is Report || m is DownloadAll || m is DownloadLatest),
        is_admin_request(m) ==> required_signer(m, admin) == admin,
        !is_admin_request(m) ==> named_contributor(m) is Some
            && required_signer(m, admin) == named_contributor(m)->0.verifying_key@
            && required_signer(m, admin) == required_signer(m, other_admin),
        m matches Msg::Join { contributor, .. } ==> required_signer(m, admin) == contributor.verifying_key@,
        named_contributor(m) matches Some(c) && ed25519_accepts(c.verifying_key@, encoded, sig)
            ==> ed25519_accepts(required_signer(m, admin), encoded, sig),
{
}

/// Which progress updates fit a row, by its status, its queue position and its
/// progress timestamps: a kicked contributor fits none; one behind others in the
/// queue fits none and hears 410; the active one fits exactly the update for the
/// stage it is in (download, computation or upload started and not yet
/// followed by the next), and an update for another stage is refused with 400.
pub proof fn lemma_progress_fits(pos: int, row: ContributorRow, start: i128, expected: CurrentContributionStep)
    requires
        pos >= 0,
        row.wf(),
    ensures
        state_error(pos, row, CurrentContributionStep::DownloadStarted { start }) is None <==> (row.status
            != ContributorStatus::Kicked && pos == 0 && row.finished_upload_at is None && row.started_upload_at is None
            && row.started_compute_at is None && row.started_download_at is Some),
        state_error(pos, row, CurrentContributionStep::ComputeStarted { start }) is None <==> (row.status
            != ContributorStatus::Kicked && pos == 0 && row.finished_upload_at is None && row.started_upload_at is None
            && row.started_compute_at is Some),
        state_error(pos, row, CurrentContributionStep::UploadStarted { start }) is None <==> (row.status
            != ContributorStatus::Kicked && pos == 0 && row.finished_upload_at is None && row.started_upload_at is Some),
        row.status == ContributorStatus::Kicked ==> state_error(pos, row, expected)
            == Some((ErrorKind::Kicked { reason: row.kicked_error->0 }, GONE)),
        row.status != ContributorStatus::Kicked && pos > 0 ==> state_error(pos, row, expected)
            == Some((ErrorKind::NotCurrentContributor, GONE)),
        row.status != ContributorStatus::Kicked && pos == 0 && state_error(pos, row, expected) is Some
            ==> state_error(pos, row, expected) == Some((ErrorKind::WrongStep { current: spec_step(row), expected }, BAD_REQUEST)),
{
}

/// What each stage's mark records at `now`: the stage's start (or the finished
/// upload with its hash, the verification, the kick with its reason) and `now` as
/// the update time, with whose row it is and its status otherwise kept; a ping
/// changes only the update time. Each mark moves the contribution to the next
/// stage, started at `now`.
pub proof fn lemma_progress_marks(r: ContributorRow, now: i128, hash: String, reason: Option<String>)
    ensures
        ({
            let p = spec_update_timestamp(r, now);
            &&& p.updated_timestamp == now && p.status == r.status && p.verifying_key == r.verifying_key
            &&& spec_step(p) == spec_step(r)
        }),
        ({
            let d = spec_mark_started_download(r, now);
            &&& d.started_download_at == Some(now) && d.updated_timestamp == now
            &&& d.status == r.status && d.verifying_key == r.verifying_key
            &&& spec_step(r) == CurrentContributionStep::DownloadNotStarted
                ==> spec_step(d) == (CurrentContributionStep::DownloadStarted { start: now })
        }),
        ({
            let c = spec_mark_started_compute(r, now);
            &&& c.started_compute_at == Some(now) && c.updated_timestamp == now
            &&& c.status == r.status && c.verifying_key == r.verifying_key && c.started_download_at == r.started_download_at
            &&& r.started_upload_at is None && r.finished_upload_at is None
                ==> spec_step(c) == (CurrentContributionStep::ComputeStarted { start: now })
        }),
        ({
            let u = spec_mark_started_upload(r, now);
            &&& u.started_upload_at == Some(now) && u.updated_timestamp == now
            &&& u.status == r.status && u.verifying_key == r.verifying_key && u.started_compute_at == r.started_compute_at
            &&& r.finished_upload_at is None ==> spec_step(u) == (CurrentContributionStep::UploadStarted { start: now })
        }),
        ({
            let f = spec_mark_finished_upload(r, hash, now);
            &&& f.finished_upload_at == Some(now) && f.updated_timestamp == now && f.contribution_hash == Some(hash)
            &&& f.status == r.status && f.verifying_key == r.verifying_key
            &&& spec_step(f) == CurrentContributionStep::Verifying
        }),
        ({
            let v = spec_mark_finished_verify(r, now);
            &&& v.status == ContributorStatus::Finished && v.finished_verify_at == Some(now) && v.updated_timestamp == now
            &&& v.verifying_key == r.verifying_key && v.contribution_hash == r.contribution_hash
        }),
        ({
            let k = spec_mark_kicked(r, reason, now);
            &&& k.status == ContributorStatus::Kicked && k.kicked_at == Some(now) && k.kicked_error == reason
            &&& k.updated_timestamp == now && k.verifying_key == r.verifying_key
        }),
{
}

} // verus!
