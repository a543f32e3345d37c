use ceremony::contributor::Contributor;
use ceremony::db::{select_with_pos, ContributorsDB, DbError, Status, SELECT_WITH_POS_HEAD};
use ceremony::store::{ContributorRow, ContributorStatus, CurrentContributionStep};

const T0: i128 = 1_700_000_000_000_000_000;

fn queue_up(db: &mut ContributorsDB, c: &Contributor, now: i128) {
    db.enqueue(c, now, 1, 2, 3).unwrap();
}

#[test]
fn test_full_lifecycle() {
    let mut db = ContributorsDB::new();

    let (_, c1) = Contributor::new("Alice", "alice@example.com");
    let (_, c2) = Contributor::new("Bob", "bob@example.com");

    // Register first contributor -> DidntJoinQueue
    db.register(&c1, T0).unwrap();
    let (_, row) = db.get_with_pos(&c1).unwrap();
    assert_eq!(row.status, ContributorStatus::DidntJoinQueue);

    // Enqueue first contributor -> Queued at position 0
    queue_up(&mut db, &c1, T0 + 1);
    let (pos, row) = db.get_with_pos(&c1).unwrap();
    assert_eq!(row.status, ContributorStatus::Queued);
    assert_eq!(pos, 0);

    // Register + enqueue second contributor -> position 1
    db.register(&c2, T0 + 2).unwrap();
    queue_up(&mut db, &c2, T0 + 3);
    let (pos, row) = db.get_with_pos(&c2).unwrap();
    assert_eq!(row.status, ContributorStatus::Queued);
    assert_eq!(pos, 1);

    // get_current returns first contributor
    let current = db.get_current().unwrap();
    assert!(current.contributor().equals(&c1));

    // refreshing the update time succeeds
    let refreshed = current.update_timestamp(T0 + 4);
    db.update(refreshed).unwrap();

    // finish_current -> first contributor is Finished
    db.finish_current(T0 + 5).unwrap();
    let (_, row) = db.get_with_pos(&c1).unwrap();
    assert_eq!(row.status, ContributorStatus::Finished);

    // Second contributor becomes current
    let current = db.get_current().unwrap();
    assert!(current.contributor().equals(&c2));

    // kick_current on second -> Kicked
    db.kick_current("test error", T0 + 6).unwrap();
    let (_, row) = db.get_with_pos(&c2).unwrap();
    assert_eq!(row.status, ContributorStatus::Kicked);
    assert_eq!(row.kicked_error.as_deref(), Some("test error"));

    // Global status resets to WaitingForDownload
    assert_eq!(db.get_global_status(), Status::WaitingForDownload { start: T0 + 6 });

    // nobody is active any more
    assert!(db.get_current().is_none());

    // get_most_recent_finished_contributor returns first contributor
    let finished = db.get_most_recent_finished_contributor().unwrap();
    assert!(finished.equals(&c1));
}

#[test]
fn enqueue_refusals() {
    let mut db = ContributorsDB::new();
    let a = Contributor::new_with_verifying_key("A", "a@example.com", [1; 32]);
    let stranger = Contributor::new_with_verifying_key("S", "s@example.com", [9; 32]);
    assert!(matches!(db.enqueue(&stranger, T0, 1, 1, 1), Err(DbError::CannotEnqueue)));
    db.register(&a, T0).unwrap();
    let row = db.enqueue(&a, T0 + 1, 4, 5, 6).unwrap();
    assert_eq!(row.status, ContributorStatus::Queued);
    assert_eq!(row.joined_at, Some(T0 + 1));
    // already queued
    assert!(matches!(db.enqueue(&a, T0 + 2, 1, 1, 1), Err(DbError::CannotEnqueue)));
    assert_eq!(DbError::CannotEnqueue.message(), "Contributor not found or not in a state that can be enqueued");
    // a kicked contributor may join again
    db.kick_current("slow", T0 + 3).unwrap();
    let row = db.enqueue(&a, T0 + 4, 1, 1, 1).unwrap();
    assert_eq!(row.kicked_error, None);
    assert_eq!(row.joined_at, Some(T0 + 4));
    // a finished one may not
    db.finish_current(T0 + 5).unwrap();
    assert!(matches!(db.enqueue(&a, T0 + 6, 1, 1, 1), Err(DbError::CannotEnqueue)));
    assert_eq!(db.get_with_pos(&a).unwrap().1.status, ContributorStatus::Finished);
}

#[test]
fn global_status_is_kept_and_reset() {
    let mut db = ContributorsDB::new();
    assert!(matches!(db.get_global_status(), Status::WaitingForDownload { .. }));
    db.set_global_status(Status::WaitingForUpload { start: T0 });
    assert_eq!(db.get_global_status(), Status::WaitingForUpload { start: T0 });
    // a refused finish leaves it alone
    assert!(db.finish_current(T0 + 1).is_err());
    assert_eq!(db.get_global_status(), Status::WaitingForUpload { start: T0 });
    let a = Contributor::new_with_verifying_key("A", "a@example.com", [1; 32]);
    db.register(&a, T0).unwrap();
    db.enqueue(&a, T0 + 2, 1, 1, 1).unwrap();
    db.set_global_status(Status::Verifying { start: T0 + 3 });
    db.finish_current(T0 + 4).unwrap();
    assert_eq!(db.get_global_status(), Status::WaitingForDownload { start: T0 + 4 });
}

#[test]
fn global_status_names_round_trip() {
    let all = [
        (Status::WaitingForDownload { start: 5 }, "waiting_for_download"),
        (Status::WaitingForCompute { start: 6 }, "waiting_for_compute"),
        (Status::WaitingForUpload { start: 7 }, "waiting_for_upload"),
        (Status::Verifying { start: 8 }, "verifying"),
    ];
    for (st, name) in all {
        assert_eq!(st.variant_str(), name);
        assert_eq!(Status::from_variant_str(name, st.start()), Some(st));
    }
    assert_eq!(Status::Verifying { start: 8 }.start(), 8);
    assert_eq!(Status::from_variant_str("waiting", 0), None);
}

#[test]
fn register_twice_is_refused() {
    let mut db = ContributorsDB::new();
    let c = Contributor::new_with_verifying_key("Alice", "alice@example.com", [7; 32]);
    db.register(&c, T0).unwrap();
    assert_eq!(db.register(&c, T0 + 1), Err(DbError::AlreadyRegistered));
    assert_eq!(db.rows().len(), 1);
}

#[test]
fn unknown_contributor_is_not_found() {
    let db = ContributorsDB::new();
    let c = Contributor::new_with_verifying_key("Nobody", "nobody@example.com", [9; 32]);
    assert!(matches!(db.get_with_pos(&c), Err(DbError::ContributorNotFound)));
}

#[test]
fn queue_positions_follow_join_times() {
    let mut db = ContributorsDB::new();
    let people: Vec<Contributor> = (0u8..4)
        .map(|k| Contributor::new_with_verifying_key(&format!("P{k}"), "p@example.com", [k; 32]))
        .collect();
    for (k, p) in people.iter().enumerate() {
        db.register(p, T0 + k as i128).unwrap();
    }
    // join in the order 2, 0, 3; person 1 never joins
    queue_up(&mut db, &people[2], T0 + 10);
    queue_up(&mut db, &people[0], T0 + 11);
    queue_up(&mut db, &people[3], T0 + 12);
    let all = db.get_contributors();
    let pos: Vec<usize> = all.iter().map(|(p, _)| *p).collect();
    assert_eq!(pos, vec![1, 0, 0, 2]);
    assert!(db.get_current().unwrap().contributor().equals(&people[2]));
}

#[test]
fn finished_contributors_come_in_verification_order() {
    let mut db = ContributorsDB::new();
    let a = Contributor::new_with_verifying_key("A", "a@example.com", [1; 32]);
    let b = Contributor::new_with_verifying_key("B", "b@example.com", [2; 32]);
    db.register(&a, T0).unwrap();
    db.register(&b, T0).unwrap();
    queue_up(&mut db, &b, T0 + 1);
    queue_up(&mut db, &a, T0 + 2);
    db.finish_current(T0 + 3).unwrap();
    db.finish_current(T0 + 4).unwrap();
    let finished = db.get_finished_contributors();
    assert_eq!(finished.len(), 2);
    assert_eq!(finished[0].name, "B");
    assert_eq!(finished[1].name, "A");
    assert!(db.get_most_recent_finished_contributor().unwrap().equals(&a));
}

#[test]
fn finishing_without_anyone_queued_fails() {
    let mut db = ContributorsDB::new();
    assert!(matches!(db.finish_current(T0), Err(DbError::NoCurrentContributor)));
    assert!(matches!(db.kick_current("x", T0), Err(DbError::NoCurrentContributor)));
}

#[test]
fn rows_are_checked_when_loaded() {
    let a = Contributor::new_with_verifying_key("A", "a@example.com", [1; 32]);
    let row = ContributorRow::new_at(a.clone(), T0);
    let ok = ContributorsDB::from_rows(vec![row.clone()], Status::Verifying { start: T0 }).unwrap();
    assert_eq!(ok.rows().len(), 1);
    assert_eq!(ok.get_global_status(), Status::Verifying { start: T0 });

    let dup = ContributorsDB::from_rows(vec![row.clone(), ContributorRow::new_at(a.clone(), T0 + 1)], Status::WaitingForDownload { start: T0 });
    assert!(matches!(dup, Err(DbError::AlreadyRegistered)));

    let mut queued_without_join_time = row.clone();
    queued_without_join_time.status = ContributorStatus::Queued;
    let bad = ContributorsDB::from_rows(vec![queued_without_join_time], Status::WaitingForDownload { start: T0 });
    assert!(matches!(bad, Err(DbError::MalformedRow)));

    let mut kicked_without_reason = row.clone();
    kicked_without_reason.status = ContributorStatus::Kicked;
    kicked_without_reason.kicked_at = Some(T0);
    assert!(matches!(ContributorsDB::from_rows(vec![kicked_without_reason], Status::WaitingForDownload { start: T0 }), Err(DbError::MalformedRow)));
}

#[test]
fn updating_a_missing_row_fails() {
    let mut db = ContributorsDB::new();
    let a = Contributor::new_with_verifying_key("A", "a@example.com", [1; 32]);
    let row = ContributorRow::new_at(a, T0);
    assert!(matches!(db.update(row), Err(DbError::ContributorNotFound)));
}

#[test]
fn contribution_steps_follow_the_marks() {
    let a = Contributor::new_with_verifying_key("A", "a@example.com", [1; 32]);
    let row = ContributorRow::new_at(a, T0).enqueue(T0 + 1, 10, 20, 30);
    assert_eq!(row.joined_at, Some(T0 + 1));
    assert_eq!(row.test_download_secs, Some(10));
    assert_eq!(row.test_compute_secs, Some(20));
    assert_eq!(row.test_upload_secs, Some(30));
    assert_eq!(row.get_current_contribution_step(), CurrentContributionStep::DownloadNotStarted);
    let row = row.mark_started_download(T0 + 2);
    assert_eq!(row.get_current_contribution_step(), CurrentContributionStep::DownloadStarted { start: T0 + 2 });
    let row = row.mark_started_compute(T0 + 3);
    assert_eq!(row.get_current_contribution_step(), CurrentContributionStep::ComputeStarted { start: T0 + 3 });
    let row = row.mark_started_upload(T0 + 4);
    assert_eq!(row.get_current_contribution_step(), CurrentContributionStep::UploadStarted { start: T0 + 4 });
    let row = row.mark_finished_upload("abcd".to_string(), T0 + 5);
    assert_eq!(row.get_current_contribution_step(), CurrentContributionStep::Verifying);
    assert_eq!(row.contribution_hash.as_deref(), Some("abcd"));
    assert_eq!(row.updated_timestamp, T0 + 5);
    // rejoining clears the earlier attempt
    let again = row.mark_kicked("slow", T0 + 6).enqueue(T0 + 7, 1, 1, 1);
    assert_eq!(again.get_current_contribution_step(), CurrentContributionStep::DownloadNotStarted);
    assert_eq!(again.kicked_error, None);
    assert_eq!(again.contribution_hash, None);
}

#[test]
fn enqueue_keeps_low_32_bits_of_test_times() {
    let a = Contributor::new_with_verifying_key("A", "a@example.com", [1; 32]);
    let row = ContributorRow::new_at(a, T0).enqueue(T0, (1u64 << 32) + 5, 7, 8);
    assert_eq!(row.test_download_secs, Some(5));
}

#[test]
fn step_names() {
    assert_eq!(CurrentContributionStep::DownloadNotStarted.variant_name(), "download not started");
    assert_eq!(CurrentContributionStep::DownloadStarted { start: 0 }.variant_name(), "download started");
    assert_eq!(CurrentContributionStep::ComputeStarted { start: 0 }.variant_name(), "compute started");
    assert_eq!(CurrentContributionStep::UploadStarted { start: 0 }.variant_name(), "upload started");
    assert_eq!(CurrentContributionStep::Verifying.variant_name(), "verification started");
}

#[test]
fn status_names_round_trip() {
    for st in [ContributorStatus::Kicked, ContributorStatus::DidntJoinQueue, ContributorStatus::Queued, ContributorStatus::Finished] {
        assert_eq!(ContributorStatus::from_db_name(st.db_name()), Some(st));
    }
    assert_eq!(ContributorStatus::DidntJoinQueue.db_name(), "didntjoinqueue");
    assert_eq!(ContributorStatus::from_db_name("waiting"), None);
    assert_eq!(ContributorStatus::Kicked.rank(), 1);
    assert_eq!(ContributorStatus::Finished.rank(), 4);
}

#[test]
fn select_with_pos_appends_the_suffix() {
    let q = select_with_pos("WHERE c1.status = 'finished'");
    assert!(q.starts_with("SELECT c1.*, CASE WHEN c1.status = 'queued' THEN (SELECT COUNT(*) FROM contributors c2"));
    assert!(q.ends_with("FROM contributors c1 WHERE c1.status = 'finished'"));
    assert_eq!(select_with_pos(""), SELECT_WITH_POS_HEAD);
}
