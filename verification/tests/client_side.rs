use ceremony::cli::{AdminCommand, Cli, Command, KEYPAIR_FILE};
use ceremony::client::{
    parse_keypairs_record, queue_step, speed_test_verdict, verification_step, KeypairsError, KeypairsRow, QueueOutcome, QueueStep,
    VerificationWait,
};
use ceremony::contributor::Contributor;
use ceremony::handlers::StatusResponse;
use ceremony::keypair::{AsAndFromHex, KeypairHexError};
use ceremony::transfer::{chunk_response, split_into_parts, upload_chunks, ChunkResponse, UploadChunk, UploadPart};

#[test]
fn queue_steps() {
    assert!(matches!(queue_step(StatusResponse::DidntJoin), QueueStep::Join));
    match queue_step(StatusResponse::Kicked("slow".to_string())) {
        QueueStep::Rejoin(r) => assert_eq!(r, "slow"),
        other => panic!("unexpected {other:?}"),
    }
    assert!(matches!(queue_step(StatusResponse::WaitingInQueue(3)), QueueStep::Wait(3)));
    match queue_step(StatusResponse::ReadyToDownloadPrevious(Some("url".to_string()))) {
        QueueStep::Done(QueueOutcome::ReadyToDownload(Some(u))) => assert_eq!(u, "url"),
        other => panic!("unexpected {other:?}"),
    }
    assert!(matches!(queue_step(StatusResponse::ReadyToDownloadPrevious(None)), QueueStep::Done(QueueOutcome::ReadyToDownload(None))));
    assert!(matches!(queue_step(StatusResponse::Finished), QueueStep::Done(QueueOutcome::AlreadyFinished)));
    assert!(matches!(queue_step(StatusResponse::Verifying), QueueStep::Done(QueueOutcome::Verifying)));
    assert!(matches!(queue_step(StatusResponse::WaitingForContributionWithPrevious(None)), QueueStep::WaitForTimeout));
    assert!(matches!(queue_step(StatusResponse::ReadyForUpload(vec![])), QueueStep::WaitForTimeout));
}

#[test]
fn verification_steps() {
    assert!(matches!(verification_step(StatusResponse::Finished), VerificationWait::Finished));
    assert!(matches!(verification_step(StatusResponse::Verifying), VerificationWait::KeepWaiting));
    match verification_step(StatusResponse::Kicked("bad".to_string())) {
        VerificationWait::Kicked(r) => assert_eq!(r, "bad"),
        other => panic!("unexpected {other:?}"),
    }
    assert!(matches!(verification_step(StatusResponse::DidntJoin), VerificationWait::Unexpected));
    assert!(matches!(verification_step(StatusResponse::WaitingInQueue(1)), VerificationWait::Unexpected));
}

#[test]
fn speed_verdicts() {
    let v = speed_test_verdict(10, 20, 30, 10, 19, 31);
    assert!(!v.download_too_slow);
    assert!(v.compute_too_slow);
    assert!(!v.upload_too_slow);
    assert!(!v.passed());
    assert!(speed_test_verdict(1, 1, 1, 1, 1, 1).passed());
}

#[test]
fn keypair_sheet_lines() {
    let row = |f: &[&str]| parse_keypairs_record(&f.iter().map(|s| s.to_string()).collect());
    assert_eq!(row(&["Alice"]).unwrap_err(), KeypairsError::MissingColumn);
    match row(&["Alice", "alice@example.com"]).unwrap() {
        KeypairsRow::NoKeypair { name, email } => {
            assert_eq!(name, "Alice");
            assert_eq!(email, "alice@example.com");
        },
        other => panic!("unexpected {other:?}"),
    }
    let (sk, c) = Contributor::new("Alice", "alice@example.com");
    let hex = (sk, c.clone()).as_hex().unwrap();
    match row(&["Alice", "alice@example.com", &hex]).unwrap() {
        KeypairsRow::HasKeypair { signing_key, contributor } => {
            assert_eq!(signing_key, sk);
            assert!(contributor.equals(&c));
        },
        other => panic!("unexpected {other:?}"),
    }
    assert_eq!(row(&["Bob", "alice@example.com", &hex]).unwrap_err(), KeypairsError::NameMismatch);
    assert_eq!(row(&["Alice", "bob@example.com", &hex]).unwrap_err(), KeypairsError::EmailMismatch);
    assert_eq!(row(&["Alice", "alice@example.com", "xyz"]).unwrap_err(), KeypairsError::InvalidKeypair(KeypairHexError::InvalidHex));
}

#[test]
fn keypair_sheet_keys() {
    let missing = KeypairsRow::NoKeypair { name: "A".to_string(), email: "a@b.c".to_string() };
    assert_eq!(missing.must_have_keypair().unwrap_err(), KeypairsError::MissingKeypair);
    let missing = KeypairsRow::NoKeypair { name: "A".to_string(), email: "a@b.c".to_string() };
    let (_, c) = missing.add_keypair_if_needed();
    assert_eq!(c.name, "A");
    assert_eq!(c.email, "a@b.c");
    let (sk, c) = Contributor::new("B", "b@b.c");
    let present = KeypairsRow::HasKeypair { signing_key: sk, contributor: c.clone() };
    let (sk2, c2) = present.must_have_keypair().unwrap();
    assert_eq!(sk, sk2);
    assert!(c.equals(&c2));
}

#[test]
fn upload_parts_tile_the_data() {
    let parts = split_into_parts(10, 3);
    assert_eq!(parts, vec![UploadPart { offset: 0, len: 4 }, UploadPart { offset: 4, len: 3 }, UploadPart { offset: 7, len: 3 }]);
    let parts = split_into_parts(2, 4);
    assert_eq!(parts.iter().map(|p| p.len).collect::<Vec<_>>(), vec![1, 1, 0, 0]);
    assert_eq!(split_into_parts(0, 1), vec![UploadPart { offset: 0, len: 0 }]);
}

#[test]
fn upload_chunks_cover_the_data() {
    assert_eq!(
        upload_chunks(10, 4),
        vec![
            UploadChunk { start: 0, end: 3, len: 4 },
            UploadChunk { start: 4, end: 7, len: 4 },
            UploadChunk { start: 8, end: 9, len: 2 },
        ]
    );
    assert_eq!(upload_chunks(8, 4).len(), 2);
    assert!(upload_chunks(0, 4).is_empty());
}

#[test]
fn chunk_statuses() {
    assert_eq!(chunk_response(200), ChunkResponse::Complete);
    assert_eq!(chunk_response(201), ChunkResponse::Complete);
    assert_eq!(chunk_response(308), ChunkResponse::Continue);
    assert_eq!(chunk_response(500), ChunkResponse::Failed);
    assert_eq!(chunk_response(404), ChunkResponse::Failed);
}

#[test]
fn command_line_values() {
    assert_eq!(KEYPAIR_FILE, "keypair.json");
    let cli = Cli { command: Command::Admin { command: AdminCommand::SmokeTestLatest { truncate: Some(8), all: true } } };
    match cli.command {
        Command::Admin { command: AdminCommand::SmokeTestLatest { truncate, all } } => {
            assert_eq!(truncate, Some(8));
            assert!(all);
        },
        _ => panic!("wrong command"),
    }
}

#[test]
fn keypair_hex_is_the_bcs_layout() {
    let c = Contributor::new_with_verifying_key("Al", "a@b", [2; 32]);
    let hex = ([1u8; 32], c.clone()).as_hex().unwrap();
    let expected = format!("20{}02{}03{}20{}", "01".repeat(32), "416c", "614062", "02".repeat(32));
    assert_eq!(hex, expected);
    // a name of 200 bytes takes two length bytes: 0xc8 0x01
    let long = "x".repeat(200);
    let c = Contributor::new_with_verifying_key(&long, "a@b", [2; 32]);
    let hex = ([1u8; 32], c).as_hex().unwrap();
    let name_at = 2 + 64;
    assert_eq!(&hex[name_at..name_at + 4], "c801");
    assert_eq!(&hex[name_at + 4..name_at + 4 + 400], "78".repeat(200));
}
