use ceremony::client::{keypairs_record, parse_keypairs_record, KeypairsRow};
use ceremony::contributor::Contributor;
use ceremony::keypair::{AsAndFromHex, KeypairHexError};
use ceremony::naming::{contribution_file_name, decimal_string, object_name};
use ceremony::report::order_report;
use ceremony::store::{ContributorRow, ContributorStatus};
use ceremony::transfer::{content_range, upload_chunks};

fn row(name: &str, key: u8, status: ContributorStatus) -> ContributorRow {
    let mut r = ContributorRow::new_at(Contributor::new_with_verifying_key(name, "x@example.com", [key; 32]), 0);
    r.status = status;
    r
}

#[test]
fn report_is_ordered_by_status_then_position() {
    let rows = vec![
        (0, row("f1", 1, ContributorStatus::Finished)),
        (2, row("q2", 2, ContributorStatus::Queued)),
        (0, row("d1", 3, ContributorStatus::DidntJoinQueue)),
        (0, row("q0", 4, ContributorStatus::Queued)),
        (0, row("k1", 5, ContributorStatus::Kicked)),
        (0, row("d2", 6, ContributorStatus::DidntJoinQueue)),
        (1, row("q1", 7, ContributorStatus::Queued)),
        (0, row("f2", 8, ContributorStatus::Finished)),
    ];
    let names: Vec<String> = order_report(rows).into_iter().map(|(_, r)| r.name).collect();
    assert_eq!(names, vec!["k1", "d1", "d2", "q0", "q1", "q2", "f1", "f2"]);
    assert!(order_report(vec![]).is_empty());
}

#[test]
fn report_order_matches_a_stable_sort() {
    let statuses = [ContributorStatus::Finished, ContributorStatus::Queued, ContributorStatus::Kicked, ContributorStatus::DidntJoinQueue];
    let rows: Vec<(usize, ContributorRow)> =
        (0..20u8).map(|k| ((k as usize * 7) % 3, row(&format!("r{k}"), k, statuses[(k as usize * 5) % 4]))).collect();
    let mut expected: Vec<String> = {
        let mut v: Vec<(u8, usize, String)> = rows.iter().map(|(p, r)| (r.status.rank(), *p, r.name.clone())).collect();
        v.sort_by_key(|(rank, p, _)| (*rank, *p));
        v.into_iter().map(|(_, _, n)| n).collect()
    };
    let got: Vec<String> = order_report(rows).into_iter().map(|(_, r)| r.name).collect();
    assert_eq!(got, std::mem::take(&mut expected));
}

#[test]
fn storage_object_names() {
    let c = Contributor::new_with_verifying_key("A", "a@b.c", [0xab; 32]);
    assert_eq!(object_name(&c), format!("contributions/{}.bin", "ab".repeat(32)));
}

#[test]
fn downloaded_file_names() {
    let key = [0x01; 32];
    assert_eq!(contribution_file_name(0, &key, "Asdf Asdf"), format!("001-{}-Asdf-Asdf.contrib", "01".repeat(32)));
    assert_eq!(contribution_file_name(41, &key, "x"), format!("042-{}-x.contrib", "01".repeat(32)));
    assert_eq!(contribution_file_name(1233, &key, " a b "), format!("1234-{}--a-b-.contrib", "01".repeat(32)));
    assert_eq!(contribution_file_name(8, &key, "Zoë Ü"), format!("009-{}-Zoë-Ü.contrib", "01".repeat(32)));
}

#[test]
fn decimal_rendering() {
    for n in [0usize, 7, 10, 99, 100, 12345, usize::MAX] {
        assert_eq!(decimal_string(n), n.to_string());
    }
}

#[test]
fn content_range_headers() {
    let chunks = upload_chunks(10, 4);
    assert_eq!(content_range(&chunks[0], 10), "bytes 0-3/10");
    assert_eq!(content_range(&chunks[2], 10), "bytes 8-9/10");
}

#[test]
fn verifying_key_hex() {
    let sk = [5u8; 32];
    let vk = ed25519_dalek::SigningKey::from_bytes(&sk).verifying_key().to_bytes();
    let hex = vk.as_hex().unwrap();
    assert_eq!(hex.len(), 64);
    assert_eq!(<[u8; 32]>::from_hex(&hex).unwrap(), vk);
    assert_eq!(<[u8; 32]>::from_hex("0g").unwrap_err(), KeypairHexError::InvalidHex);
    assert_eq!(<[u8; 32]>::from_hex("abcd").unwrap_err(), KeypairHexError::WrongKeyLength);
}

#[test]
fn keypair_sheet_round_trip() {
    let (sk, c) = Contributor::new("Hjkl Hjkl", "Hjkl@asdf.com");
    let fields = keypairs_record(&sk, &c).unwrap();
    assert_eq!(fields[0], "Hjkl Hjkl");
    assert_eq!(fields[1], "Hjkl@asdf.com");
    match parse_keypairs_record(&fields).unwrap() {
        KeypairsRow::HasKeypair { signing_key, contributor } => {
            assert_eq!(signing_key, sk);
            assert!(contributor.equals(&c));
        },
        other => panic!("unexpected {other:?}"),
    }
}
