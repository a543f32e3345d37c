use ceremony::config::{default_contribute_timeout, default_download_timeout, default_ping_timeout, default_port, default_upload_timeout, Config};
use ceremony::contributor::Contributor;
use ceremony::db::{ContributorsDB, DbError};
use ceremony::error::{bad_request, server_error, service_unavailable, ErrorKind, ErrorWithCode, UseCodeOnError, BAD_REQUEST, GONE, INTERNAL_SERVER_ERROR, NOT_FOUND, SERVICE_UNAVAILABLE};
use ceremony::handlers::{
    check_correct_state, handle_download_all, handle_download_latest, handle_get_status, handle_join, handle_register, handle_report,
    handle_tick, handle_update_compute_progress, handle_update_download_progress, handle_update_upload_progress, record_verification,
    StatusPlan, StatusResponse, TickOutcome, TimeoutPhase,
};
use ceremony::store::{ContributorRow, ContributorStatus, CurrentContributionStep};

const T0: i128 = 1_700_000_000_000_000_000;
/// One millisecond, in nanoseconds.
const MS: i128 = 1_000_000;

fn person(name: &str, key: u8) -> Contributor {
    Contributor::new_with_verifying_key(name, &format!("{name}@example.com"), [key; 32])
}

fn config() -> Config {
    Config {
        db_path: "sqlite::memory:".to_string(),
        bucket_id: "bucket".to_string(),
        gcp_project_id: "project".to_string(),
        admin_verifying_key: [0; 32],
        ping_timeout_secs: default_ping_timeout(),
        download_timeout_secs: default_download_timeout(),
        contribute_timeout_secs: default_contribute_timeout(),
        upload_timeout_secs: default_upload_timeout(),
        port: default_port(),
    }
}

fn table_with(people: &[Contributor]) -> ContributorsDB {
    let mut db = ContributorsDB::new();
    for p in people {
        handle_register(&mut db, p, T0).unwrap();
    }
    db
}

#[test]
fn config_defaults() {
    assert_eq!(default_ping_timeout(), 20);
    assert_eq!(default_download_timeout(), 90);
    assert_eq!(default_contribute_timeout(), 900);
    assert_eq!(default_upload_timeout(), 350);
    assert_eq!(default_port(), 8888);
    let c = config();
    assert_eq!(c.ping_timeout(), 20_000_000_000);
    assert_eq!(c.download_timeout(), 90_000_000_000);
    assert_eq!(c.contribute_timeout(), 900_000_000_000);
    assert_eq!(c.upload_timeout(), 350_000_000_000);
}

#[test]
fn join_refusals() {
    let alice = person("Alice", 1);
    let stranger = person("Stranger", 9);
    let mut db = table_with(&[alice.clone()]);
    let e = handle_join(&mut db, &stranger, T0, 1, 1, 1).unwrap_err();
    assert!(matches!(e.error, ErrorKind::Db(DbError::ContributorNotFound)));
    assert_eq!(e.code(), INTERNAL_SERVER_ERROR);

    handle_join(&mut db, &alice, T0 + 1, 1, 1, 1).unwrap();
    let e = handle_join(&mut db, &alice, T0 + 2, 1, 1, 1).unwrap_err();
    assert!(matches!(e.error, ErrorKind::AlreadyInQueue));
    assert_eq!(e.code, Some(BAD_REQUEST));
    assert_eq!(e.error.message(), "Already in queue");

    record_verification(&mut db, None, T0 + 3).unwrap();
    let e = handle_join(&mut db, &alice, T0 + 4, 1, 1, 1).unwrap_err();
    assert!(matches!(e.error, ErrorKind::AlreadyFinished));
    assert_eq!(e.error.message(), "Already finished contributing");
}

#[test]
fn a_whole_contribution() {
    let alice = person("Alice", 1);
    let bob = person("Bob", 2);
    let mut db = table_with(&[alice.clone(), bob.clone()]);

    match handle_get_status(&mut db, &alice, T0 + 1).unwrap().0 {
        StatusPlan::Respond(StatusResponse::DidntJoin) => {},
        other => panic!("unexpected {other:?}"),
    }
    handle_join(&mut db, &alice, T0 + 2, 5, 6, 7).unwrap();
    handle_join(&mut db, &bob, T0 + 3, 5, 6, 7).unwrap();

    match handle_get_status(&mut db, &bob, T0 + 4).unwrap().0 {
        StatusPlan::Respond(StatusResponse::WaitingInQueue(1)) => {},
        other => panic!("unexpected {other:?}"),
    }
    // the active contributor's first status request starts its download
    let (plan, row) = handle_get_status(&mut db, &alice, T0 + 5).unwrap();
    assert!(matches!(plan, StatusPlan::DownloadPrevious { previous: None }));
    assert_eq!(row.get_current_contribution_step(), CurrentContributionStep::DownloadStarted { start: T0 + 5 });

    // a ping during the download only refreshes the row
    let row = handle_update_download_progress(&mut db, false, &alice, T0 + 6).unwrap();
    assert_eq!(row.updated_timestamp, T0 + 6);
    assert_eq!(row.get_current_contribution_step(), CurrentContributionStep::DownloadStarted { start: T0 + 5 });

    let row = handle_update_download_progress(&mut db, true, &alice, T0 + 7).unwrap();
    assert_eq!(row.get_current_contribution_step(), CurrentContributionStep::ComputeStarted { start: T0 + 7 });
    assert!(matches!(handle_get_status(&mut db, &alice, T0 + 8).unwrap().0, StatusPlan::ContributeWithPrevious { previous: None }));

    // the wrong step is refused
    let e = handle_update_download_progress(&mut db, true, &alice, T0 + 9).unwrap_err();
    assert_eq!(e.code, Some(BAD_REQUEST));
    assert_eq!(e.error.message(), "Can't make this request right now, the current state is compute started, expected download started.");

    // somebody else's progress is refused
    let e = handle_update_compute_progress(&mut db, true, &bob, T0 + 9).unwrap_err();
    assert_eq!(e.code, Some(GONE));
    assert_eq!(e.error.message(), "Not the current active contributor");

    let row = handle_update_compute_progress(&mut db, true, &alice, T0 + 10).unwrap();
    assert_eq!(row.get_current_contribution_step(), CurrentContributionStep::UploadStarted { start: T0 + 10 });
    assert!(matches!(handle_get_status(&mut db, &alice, T0 + 11).unwrap().0, StatusPlan::Upload));

    let row = handle_update_upload_progress(&mut db, true, "feed".to_string(), &alice, T0 + 12).unwrap();
    assert_eq!(row.get_current_contribution_step(), CurrentContributionStep::Verifying);
    assert_eq!(row.contribution_hash.as_deref(), Some("feed"));
    assert!(matches!(handle_get_status(&mut db, &alice, T0 + 13).unwrap().0, StatusPlan::Respond(StatusResponse::Verifying)));

    let row = record_verification(&mut db, None, T0 + 14).unwrap();
    assert_eq!(row.status, ContributorStatus::Finished);
    assert!(matches!(handle_get_status(&mut db, &alice, T0 + 15).unwrap().0, StatusPlan::Respond(StatusResponse::Finished)));

    // Bob is next, and gets Alice's contribution
    match handle_get_status(&mut db, &bob, T0 + 16).unwrap().0 {
        StatusPlan::DownloadPrevious { previous: Some(p) } => assert!(p.equals(&alice)),
        other => panic!("unexpected {other:?}"),
    }
    assert!(handle_download_latest(&db).unwrap().equals(&alice));
    let all = handle_download_all(&db);
    assert_eq!(all.len(), 1);
    assert_eq!(all[0].name, "Alice");
}

#[test]
fn failed_verification_kicks() {
    let alice = person("Alice", 1);
    let mut db = table_with(&[alice.clone()]);
    handle_join(&mut db, &alice, T0 + 1, 1, 1, 1).unwrap();
    let row = record_verification(&mut db, Some("bad proof".to_string()), T0 + 2).unwrap();
    assert_eq!(row.status, ContributorStatus::Kicked);
    assert_eq!(row.kicked_error.as_deref(), Some("bad proof"));
    match handle_get_status(&mut db, &alice, T0 + 3).unwrap().0 {
        StatusPlan::Respond(StatusResponse::Kicked(reason)) => assert_eq!(reason, "bad proof"),
        other => panic!("unexpected {other:?}"),
    }
    let e = handle_update_download_progress(&mut db, false, &alice, T0 + 4).unwrap_err();
    assert_eq!(e.code, Some(GONE));
    assert_eq!(e.error.message(), "You were kicked. Please restart to rejoin queue. Reason was: bad proof");
    // a kicked contributor may join again
    handle_join(&mut db, &alice, T0 + 5, 1, 1, 1).unwrap();
    assert!(matches!(record_verification(&mut ContributorsDB::new(), None, T0), Err(DbError::NoCurrentContributor)));
}

#[test]
fn nothing_to_download_yet() {
    let db = ContributorsDB::new();
    let e = handle_download_latest(&db).unwrap_err();
    assert_eq!(e.code, Some(NOT_FOUND));
    assert_eq!(e.error.message(), "No contributions yet");
}

#[test]
fn register_twice_is_a_server_error() {
    let alice = person("Alice", 1);
    let mut db = table_with(&[alice.clone()]);
    let e = handle_register(&mut db, &alice, T0).unwrap_err();
    assert!(matches!(e.error, ErrorKind::Db(DbError::AlreadyRegistered)));
    assert_eq!(e.code(), INTERNAL_SERVER_ERROR);
}

#[test]
fn report_lists_everyone() {
    let alice = person("Alice", 1);
    let bob = person("Bob", 2);
    let mut db = table_with(&[alice.clone(), bob.clone()]);
    let r = handle_report(&db);
    assert_eq!(r.status, None);
    assert_eq!(r.contributors.len(), 2);
    handle_join(&mut db, &bob, T0 + 1, 1, 1, 1).unwrap();
    let r = handle_report(&db);
    assert_eq!(r.status, Some(CurrentContributionStep::DownloadNotStarted));
    assert_eq!(r.contributors[1].1.status, ContributorStatus::Queued);
}

#[test]
fn tick_starts_download_then_kicks_on_silence() {
    let alice = person("Alice", 1);
    let mut db = table_with(&[alice.clone()]);
    let cfg = config();
    assert!(matches!(handle_tick(&mut db, T0, &cfg), TickOutcome::NoCurrentContributor));
    handle_join(&mut db, &alice, T0 + 1, 1, 1, 1).unwrap();
    match handle_tick(&mut db, T0 + 2, &cfg) {
        TickOutcome::StartedDownload { row } => {
            assert_eq!(row.get_current_contribution_step(), CurrentContributionStep::DownloadStarted { start: T0 + 2 })
        },
        other => panic!("unexpected {other:?}"),
    }
    assert!(matches!(handle_tick(&mut db, T0 + 3, &cfg), TickOutcome::Unchanged));
    // 21 s of silence against a 20 s ping timeout
    match handle_tick(&mut db, T0 + 2 + 21_000 * MS, &cfg) {
        TickOutcome::Kicked { phase, elapsed_ns, timeout_ns, row } => {
            assert_eq!(phase, TimeoutPhase::Ping);
            assert_eq!(elapsed_ns, 21_000 * MS);
            assert_eq!(timeout_ns, 20_000 * MS);
            assert_eq!(row.status, ContributorStatus::Kicked);
            assert_eq!(row.kicked_error.as_deref(), Some("Timed out: ping time TimeDelta { secs: 21, nanos: 0 } exceeded timeout of TimeDelta { secs: 20, nanos: 0 }"));
        },
        other => panic!("unexpected {other:?}"),
    }
}

#[test]
fn tick_leaves_a_verifying_contributor_alone() {
    let alice = person("Alice", 1);
    let mut db = table_with(&[alice.clone()]);
    let cfg = config();
    handle_join(&mut db, &alice, T0, 1, 1, 1).unwrap();
    handle_get_status(&mut db, &alice, T0).unwrap();
    handle_update_download_progress(&mut db, true, &alice, T0 + 1).unwrap();
    handle_update_compute_progress(&mut db, true, &alice, T0 + 2).unwrap();
    handle_update_upload_progress(&mut db, true, "feed".to_string(), &alice, T0 + 3).unwrap();
    // silent for far longer than the ping timeout while the upload is verified
    assert!(matches!(handle_tick(&mut db, T0 + 3 + 600_000 * MS, &cfg), TickOutcome::Unchanged));
    let r = handle_report(&db);
    assert_eq!(r.status, Some(CurrentContributionStep::Verifying));
    assert_eq!(r.contributors[0].1.status, ContributorStatus::Queued);
    assert_eq!(r.contributors[0].1.kicked_error, None);
}

#[test]
fn tick_reason_shows_sub_second_durations() {
    let alice = person("Alice", 1);
    let mut db = table_with(&[alice.clone()]);
    let cfg = config();
    handle_join(&mut db, &alice, T0, 1, 1, 1).unwrap();
    handle_get_status(&mut db, &alice, T0).unwrap();
    // one millisecond past the ping timeout
    match handle_tick(&mut db, T0 + 20_001 * MS, &cfg) {
        TickOutcome::Kicked { row, .. } => {
            assert_eq!(row.kicked_error.as_deref(), Some("Timed out: ping time TimeDelta { secs: 20, nanos: 1000000 } exceeded timeout of TimeDelta { secs: 20, nanos: 0 }"));
        },
        other => panic!("unexpected {other:?}"),
    }
}

#[test]
fn tick_deadline_counts_nanoseconds() {
    let alice = person("Alice", 1);
    let mut db = table_with(&[alice.clone()]);
    let cfg = config();
    handle_join(&mut db, &alice, T0, 1, 1, 1).unwrap();
    handle_get_status(&mut db, &alice, T0).unwrap();
    // exactly the ping timeout is not past it
    assert!(matches!(handle_tick(&mut db, T0 + 20_000 * MS, &cfg), TickOutcome::Unchanged));
    // one nanosecond past it is
    match handle_tick(&mut db, T0 + 20_000 * MS + 1, &cfg) {
        TickOutcome::Kicked { phase, elapsed_ns, row, .. } => {
            assert_eq!(phase, TimeoutPhase::Ping);
            assert_eq!(elapsed_ns, 20_000_000_001);
            assert_eq!(row.kicked_error.as_deref(), Some("Timed out: ping time TimeDelta { secs: 20, nanos: 1 } exceeded timeout of TimeDelta { secs: 20, nanos: 0 }"));
        },
        other => panic!("unexpected {other:?}"),
    }
}

#[test]
fn tick_reason_shows_negative_durations() {
    let alice = person("Alice", 1);
    let mut db = table_with(&[alice.clone()]);
    let mut cfg = config();
    cfg.ping_timeout_secs = -1;
    handle_join(&mut db, &alice, T0, 1, 1, 1).unwrap();
    handle_get_status(&mut db, &alice, T0).unwrap();
    // half a second before the last sign of life, against a timeout of minus one second
    match handle_tick(&mut db, T0 - 500 * MS, &cfg) {
        TickOutcome::Kicked { phase, elapsed_ns, timeout_ns, row } => {
            assert_eq!(phase, TimeoutPhase::Ping);
            assert_eq!(elapsed_ns, -500 * MS);
            assert_eq!(timeout_ns, -1_000 * MS);
            assert_eq!(row.kicked_error.as_deref(), Some("Timed out: ping time TimeDelta { secs: -1, nanos: 500000000 } exceeded timeout of TimeDelta { secs: -1, nanos: 0 }"));
        },
        other => panic!("unexpected {other:?}"),
    }
}

#[test]
fn tick_kicks_a_slow_download() {
    let alice = person("Alice", 1);
    let mut db = table_with(&[alice.clone()]);
    let cfg = config();
    handle_join(&mut db, &alice, T0, 1, 1, 1).unwrap();
    handle_get_status(&mut db, &alice, T0).unwrap();
    // keep pinging, but take more than 90 s
    let mut t = T0;
    while t < T0 + 90_000 * MS {
        t += 10_000 * MS;
        handle_update_download_progress(&mut db, false, &alice, t).unwrap();
        assert!(matches!(handle_tick(&mut db, t, &cfg), TickOutcome::Unchanged));
    }
    handle_update_download_progress(&mut db, false, &alice, T0 + 90_500 * MS).unwrap();
    match handle_tick(&mut db, T0 + 90_500 * MS, &cfg) {
        TickOutcome::Kicked { phase, elapsed_ns, .. } => {
            assert_eq!(phase, TimeoutPhase::Download);
            assert_eq!(elapsed_ns, 90_500 * MS);
        },
        other => panic!("unexpected {other:?}"),
    }
}

#[test]
fn state_checks() {
    let alice = person("Alice", 1);
    let row = ContributorRow::new_at(alice, T0).enqueue(T0, 1, 1, 1);
    assert!(check_correct_state(0, &row, CurrentContributionStep::DownloadNotStarted).is_ok());
    let e = check_correct_state(3, &row, CurrentContributionStep::DownloadNotStarted).unwrap_err();
    assert!(matches!(e.error, ErrorKind::NotCurrentContributor));
    let e = check_correct_state(0, &row, CurrentContributionStep::Verifying).unwrap_err();
    assert!(matches!(e.error, ErrorKind::WrongStep { .. }));
    assert_eq!(e.code, Some(BAD_REQUEST));
}

#[test]
fn error_codes() {
    assert_eq!(bad_request(ErrorKind::InvalidBody).code(), 400);
    assert_eq!(server_error(ErrorKind::InvalidBody).code(), 500);
    assert_eq!(service_unavailable(ErrorKind::InvalidBody).code(), SERVICE_UNAVAILABLE);
    let plain = ErrorWithCode::from_kind(ErrorKind::InvalidRoute);
    assert_eq!(plain.code(), 500);
    let with_ctx = bad_request(ErrorKind::InvalidBody).context("Verification of your contribution failed.");
    assert_eq!(with_ctx.code(), 400);
    assert_eq!(with_ctx.error.message(), "Verification of your contribution failed.");
    let r: Result<(), ErrorKind> = Err(ErrorKind::InvalidRoute);
    let e = r.use_code_on_error(NOT_FOUND).unwrap_err();
    assert_eq!(e.code(), 404);
    assert_eq!(e.error.message(), "Invalid route.");
    let r: Result<(), ErrorWithCode> = Err(bad_request(ErrorKind::InvalidBody));
    assert_eq!(r.use_code_on_error(NOT_FOUND).unwrap_err().code(), 400);
    assert_eq!(ErrorKind::Unauthorized { admin: false }.message(), "You must be admin to do this");
    assert_eq!(ErrorKind::Db(DbError::ContributorNotFound).message(), "Contributor not found");
}
