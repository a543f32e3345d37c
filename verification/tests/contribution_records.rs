use ceremony::contribution::{
    build_previous_hashes, check_fptx_shape, check_powers_len, check_previous_hashes, check_previous_powers_len, next_record,
    trails_equal, truncate_each, truncate_powers, ContributionGenerationFailure, ContributionVerificationFailure,
};
use ceremony::contributor::Contributor;
use ceremony::contribution::{MultipairingEquationNonZeroResult, SoKVerificationError};
use ceremony::params::{BatchSizeNotPowerOfTwo, FPTXParams};

fn person(name: &str, key: u8) -> Contributor {
    Contributor::new_with_verifying_key(name, &format!("{name}@example.com"), [key; 32])
}

#[test]
fn trail_grows_by_one_entry_per_contribution() {
    let a = person("Asdf Asdf", 1);
    let b = person("Hjkl Hjkl", 2);
    let first = next_record(&a, None);
    assert!(first.previous_hashes.is_empty());
    let first_bytes = b"first contribution".to_vec();
    let second = next_record(&b, Some((&first, first_bytes.as_slice())));
    assert_eq!(second.previous_hashes.len(), 1);
    assert!(second.previous_hashes[0].0.equals(&a));
    assert_eq!(&second.previous_hashes[0].1, blake3::hash(&first_bytes).as_bytes());
    assert!(check_previous_hashes(&second, Some((&first, first_bytes.as_slice()))).is_ok());
    assert!(check_previous_hashes(&first, None).is_ok());

    let second_bytes = b"second contribution".to_vec();
    let third = next_record(&a, Some((&second, second_bytes.as_slice())));
    assert_eq!(third.previous_hashes.len(), 2);
    assert!(third.previous_hashes[1].0.equals(&b));
    assert!(trails_equal(&third.previous_hashes[..1].to_vec(), &second.previous_hashes));
    assert_eq!(build_previous_hashes(&second, &second_bytes).len(), 2);
}

#[test]
fn tampered_trail_is_refused() {
    let a = person("A", 1);
    let b = person("B", 2);
    let first = next_record(&a, None);
    let bytes = b"first".to_vec();
    let second = next_record(&b, Some((&first, bytes.as_slice())));
    assert_eq!(
        check_previous_hashes(&second, Some((&first, &b"other bytes"[..]))),
        Err(ContributionVerificationFailure::ContributionHashMismatch)
    );
    let no_trail = next_record(&b, None);
    assert_eq!(
        check_previous_hashes(&no_trail, Some((&first, bytes.as_slice()))),
        Err(ContributionVerificationFailure::ContributionHashMismatch)
    );
}

#[test]
fn shape_checks() {
    assert!(check_powers_len(9, 8).is_ok());
    assert_eq!(check_powers_len(8, 8), Err(ContributionVerificationFailure::ParamsMismatch));
    assert!(check_previous_powers_len(9, 8).is_ok());
    assert_eq!(check_previous_powers_len(10, 8), Err(ContributionGenerationFailure::ParamsMismatch));
    let p = FPTXParams::new(8, 3).unwrap();
    assert!(check_fptx_shape(3, 3, 9, 3, &p).is_ok());
    assert_eq!(check_fptx_shape(3, 2, 9, 3, &p), Err(ContributionVerificationFailure::ParamsMismatch));
    assert_eq!(check_fptx_shape(3, 3, 8, 3, &p), Err(ContributionVerificationFailure::ParamsMismatch));
    assert_eq!(check_fptx_shape(3, 3, 9, 4, &p), Err(ContributionVerificationFailure::ParamsMismatch));
}

#[test]
fn truncation() {
    let mut v = vec![1, 2, 3, 4, 5];
    truncate_powers(&mut v, 3);
    assert_eq!(v, vec![1, 2, 3]);
    truncate_powers(&mut v, 10);
    assert_eq!(v, vec![1, 2, 3]);
    let mut vv = vec![vec![1, 2, 3], vec![4], vec![5, 6, 7, 8]];
    truncate_each(&mut vv, 2);
    assert_eq!(vv, vec![vec![1, 2], vec![4], vec![5, 6]]);
}

#[test]
fn failure_texts() {
    assert_eq!(ContributionVerificationFailure::ContributionHashMismatch.message(), "Contribution hashes mismatch");
    assert_eq!(ContributionVerificationFailure::MultipairingEquationNonZeroResult.message(), "Multipairing equation had a nonzero result");
    assert_eq!(ContributionVerificationFailure::ParamsMismatch.message(), "Params mismatch");
    assert_eq!(ContributionGenerationFailure::ParamsMismatch.message(), "Params mismatch");
    assert_eq!(BatchSizeNotPowerOfTwo.message(), "FPTX batch size must be a power of two");
    assert_eq!(SoKVerificationError.message(), "Signature of knowledge verification failed");
    assert_eq!(MultipairingEquationNonZeroResult.message(), "Multipairing equation had a nonzero result.");
}
