use vstd::prelude::*;
use crate::contributor::Contributor;
use crate::hashing::{blake3_digest, blake3_hash};
use crate::params::FPTXParams;

verus! {

/// Contribution generation was refused.
#[derive(Debug, Clone, Copy, PartialEq, Eq, Structural)]
pub enum ContributionGenerationFailure {
    /// The previous contribution does not fit the parameters.
    ParamsMismatch,
}

/// Contribution verification failed.
#[derive(Debug, Clone, Copy, PartialEq, Eq, Structural)]
pub enum ContributionVerificationFailure {
    /// The contribution's record of earlier contributions is not the previous
    /// contribution's record extended by the previous contribution.
    ContributionHashMismatch,
    /// The pairing check did not come out to zero.
    MultipairingEquationNonZeroResult,
    /// The contribution does not fit the parameters.
    ParamsMismatch,
}

impl ContributionGenerationFailure {
    /// The text of the failure.
    pub fn message(&self) -> (s: &'static str)
        ensures
            s@ == "Params mismatch"@,
    {
        "Params mismatch"
    }
}

impl ContributionVerificationFailure {
    /// The text of the failure.
    pub open spec fn spec_message(self) -> Seq<char> {
        match self {
            ContributionVerificationFailure::ContributionHashMismatch => "Contribution hashes mismatch"@,
            ContributionVerificationFailure::MultipairingEquationNonZeroResult => "Multipairing equation had a nonzero result"@,
            ContributionVerificationFailure::ParamsMismatch => "Params mismatch"@,
        }
    }

    /// The text of the failure.
    pub fn message(&self) -> (s: &'static str)
        ensures
            s@ == self.spec_message(),
    {
        match self {
            ContributionVerificationFailure::ContributionHashMismatch => "Contribution hashes mismatch",
            ContributionVerificationFailure::MultipairingEquationNonZeroResult => "Multipairing equation had a nonzero result",
            ContributionVerificationFailure::ParamsMismatch => "Params mismatch",
        }
    }
}

/// A signature of knowledge did not verify.
#[derive(Debug, Clone, Copy, PartialEq, Eq, Structural)]
pub struct SoKVerificationError;

/// A pairing check did not come out to zero.
#[derive(Debug, Clone, Copy, PartialEq, Eq, Structural)]
pub struct MultipairingEquationNonZeroResult;

impl SoKVerificationError {
    /// The text of the failure.
    pub fn message(&self) -> (s: &'static str)
        ensures
            s@ == "Signature of knowledge verification failed"@,
    {
        "Signature of knowledge verification failed"
    }
}

impl MultipairingEquationNonZeroResult {
    /// The text of the failure.
    pub fn message(&self) -> (s: &'static str)
        ensures
            s@ == "Multipairing equation had a nonzero result."@,
    {
        "Multipairing equation had a nonzero result."
    }
}

/// The contributor and the trail of earlier contributions that a contribution
/// carries besides its cryptographic content. The trail lists every earlier
/// contributor, oldest first, with the BLAKE3 hash of its serialized contribution.
#[derive(Debug)]
pub struct ContributionRecord {
    pub contributor: Contributor,
    pub previous_hashes: Vec<(Contributor, [u8; 32])>,
}

/// One trail entry as plain values: name, email, verifying key, hash.
pub open spec fn entry_view(e: (Contributor, [u8; 32])) -> (Seq<char>, Seq<char>, Seq<u8>, Seq<u8>) {
    (e.0.name@, e.0.email@, e.0.verifying_key@, e.1@)
}

pub open spec fn trail_view(t: Seq<(Contributor, [u8; 32])>) -> Seq<(Seq<char>, Seq<char>, Seq<u8>, Seq<u8>)> {
    t.map_values(|e: (Contributor, [u8; 32])| entry_view(e))
}

/// The trail a contribution built on `previous` must carry: the previous trail
/// followed by the previous contributor and the hash of the previous contribution's
/// bytes.
pub open spec fn spec_next_trail(previous: ContributionRecord, previous_bytes: Seq<u8>) -> Seq<(Seq<char>, Seq<char>, Seq<u8>, Seq<u8>)> {
    trail_view(previous.previous_hashes@).push(
        (previous.contributor.name@, previous.contributor.email@, previous.contributor.verifying_key@, blake3_digest(previous_bytes)),
    )
}

fn clone_entry(e: &(Contributor, [u8; 32])) -> (r: (Contributor, [u8; 32]))
    ensures
        r == *e,
{
    (e.0.clone(), e.1)
}

/// Builds the trail of a contribution that follows `previous`, whose serialized
/// bytes are `previous_bytes`.
pub fn build_previous_hashes(previous: &ContributionRecord, previous_bytes: &[u8]) -> (t: Vec<(Contributor, [u8; 32])>)
    ensures
        trail_view(t@) == spec_next_trail(*previous, previous_bytes@),
        t@.len() == previous.previous_hashes@.len() + 1,
{
    let mut t: Vec<(Contributor, [u8; 32])> = Vec::new();
    let mut i: usize = 0;
    while i < previous.previous_hashes.len()
        invariant
            0 <= i <= previous.previous_hashes@.len(),
            t@ == previous.previous_hashes@.subrange(0, i as int),
        decreases previous.previous_hashes@.len() - i,
    {
        t.push(clone_entry(&previous.previous_hashes[i]));
        assert(previous.previous_hashes@.subrange(0, i + 1) =~= previous.previous_hashes@.subrange(0, i as int).push(previous.previous_hashes@[i as int]));
        i = i + 1;
    }
    assert(previous.previous_hashes@.subrange(0, previous.previous_hashes@.len() as int) =~= previous.previous_hashes@);
    let h = blake3_hash(previous_bytes);
    let ghost before = t@;
    t.push((previous.contributor.clone(), h));
    assert(trail_view(t@) =~= trail_view(before).push(entry_view(t@[t@.len() - 1])));
    t
}

fn entries_equal(a: &(Contributor, [u8; 32]), b: &(Contributor, [u8; 32])) -> (r: bool)
    ensures
        r == (entry_view(*a) == entry_view(*b)),
{
    a.0.equals(&b.0) && crate::contributor::keys_equal(&a.1, &b.1)
}

/// Whether two trails list the same entries.
pub fn trails_equal(a: &Vec<(Contributor, [u8; 32])>, b: &Vec<(Contributor, [u8; 32])>) -> (r: bool)
    ensures
        r == (trail_view(a@) == trail_view(b@)),
{
    if a.len() != b.len() {
        proof {
            assert(trail_view(a@).len() != trail_view(b@).len());
        }
        return false;
    }
    let mut i: usize = 0;
    while i < a.len()
        invariant
            0 <= i <= a@.len(),
            a@.len() == b@.len(),
            forall|j: int| 0 <= j < i ==> entry_view(a@[j]) == entry_view(b@[j]),
        decreases a@.len() - i,
    {
        if !entries_equal(&a[i], &b[i]) {
            proof {
                assert(trail_view(a@)[i as int] != trail_view(b@)[i as int]);
            }
            return false;
        }
        i = i + 1;
    }
    assert(trail_view(a@) =~= trail_view(b@));
    true
}

/// The trail check of verification: with a previous contribution, the trail must
/// be the previous trail extended by the previous contribution; the first
/// contribution's trail is not checked.
pub fn check_previous_hashes(current: &ContributionRecord, previous: Option<(&ContributionRecord, &[u8])>)
    -> (r: Result<(), ContributionVerificationFailure>)
    ensures
        match previous {
            None => r is Ok,
            Some((p, bytes)) => (r is Ok <==> trail_view(current.previous_hashes@) == spec_next_trail(*p, bytes@))
                && (r is Err ==> r == Err::<(), _>(ContributionVerificationFailure::ContributionHashMismatch)),
        },
{
    match previous {
        None => Ok(()),
        Some((p, bytes)) => {
            let expected = build_previous_hashes(p, bytes);
            if trails_equal(&current.previous_hashes, &expected) {
                Ok(())
            } else {
                Err(ContributionVerificationFailure::ContributionHashMismatch)
            }
        },
    }
}

/// The record of a contribution built on `previous` (or the first one) by `contributor`.
pub fn next_record(contributor: &Contributor, previous: Option<(&ContributionRecord, &[u8])>) -> (r: ContributionRecord)
    ensures
        r.contributor == *contributor,
        match previous {
            None => r.previous_hashes@.len() == 0,
            Some((p, bytes)) => trail_view(r.previous_hashes@) == spec_next_trail(*p, bytes@),
        },
{
    let previous_hashes = match previous {
        None => Vec::new(),
        Some((p, bytes)) => build_previous_hashes(p, bytes),
    };
    ContributionRecord { contributor: contributor.clone(), previous_hashes }
}

/// The trail is append-only: a contribution after `previous` carries the previous
/// trail unchanged as its prefix, with exactly one entry more.
pub proof fn lemma_trail_extends_previous(current: ContributionRecord, previous: ContributionRecord, bytes: Seq<u8>)
    requires
        trail_view(current.previous_hashes@) == spec_next_trail(previous, bytes),
    ensures
        trail_view(current.previous_hashes@).len() == trail_view(previous.previous_hashes@).len() + 1,
        trail_view(current.previous_hashes@).subrange(0, previous.previous_hashes@.len() as int)
            == trail_view(previous.previous_hashes@),
{
    assert(trail_view(current.previous_hashes@).subrange(0, previous.previous_hashes@.len() as int)
        =~= trail_view(previous.previous_hashes@));
}

/// A powers-of-tau contribution must hold exactly `max_power + 1` powers.
pub fn check_powers_len(powers_len: usize, max_power: usize) -> (r: Result<(), ContributionVerificationFailure>)
    requires
        max_power < usize::MAX,
    ensures
        r is Ok <==> powers_len == max_power + 1,
        r is Err ==> r == Err::<(), _>(ContributionVerificationFailure::ParamsMismatch),
{
    if powers_len != max_power + 1 {
        Err(ContributionVerificationFailure::ParamsMismatch)
    } else {
        Ok(())
    }
}

/// A previous contribution must hold exactly `max_power + 1` powers for a new one
/// to be built on it.
pub fn check_previous_powers_len(powers_len: usize, max_power: usize) -> (r: Result<(), ContributionGenerationFailure>)
    requires
        max_power < usize::MAX,
    ensures
        r is Ok <==> powers_len == max_power + 1,
        r is Err ==> r == Err::<(), _>(ContributionGenerationFailure::ParamsMismatch),
{
    if powers_len != max_power + 1 {
        Err(ContributionGenerationFailure::ParamsMismatch)
    } else {
        Ok(())
    }
}

/// An FPTX contribution must hold one randomizer, one signature of knowledge and
/// one randomized power vector per round, and `batch_size + 1` powers of tau.
pub fn check_fptx_shape(
    num_alphas: usize,
    num_soks: usize,
    num_powers: usize,
    num_randomized: usize,
    params: &FPTXParams,
) -> (r: Result<(), ContributionVerificationFailure>)
    requires
        params.batch_size < usize::MAX,
    ensures
        r is Ok <==> (num_alphas == params.num_rounds && num_soks == params.num_rounds
            && num_powers == params.batch_size + 1 && num_randomized == params.num_rounds),
        r is Err ==> r == Err::<(), _>(ContributionVerificationFailure::ParamsMismatch),
{
    if num_alphas != params.num_rounds || num_soks != params.num_rounds || num_powers != params.batch_size + 1
        || num_randomized != params.num_rounds {
        Err(ContributionVerificationFailure::ParamsMismatch)
    } else {
        Ok(())
    }
}

/// Cuts a vector of powers to at most `len` entries.
pub fn truncate_powers<T>(powers: &mut Vec<T>, len: usize)
    ensures
        final(powers)@ == if len <= old(powers)@.len() { old(powers)@.subrange(0, len as int) } else { old(powers)@ },
{
    powers.truncate(len);
}

/// Cuts every vector of powers to at most `len` entries.
pub fn truncate_each<T>(vectors: &mut Vec<Vec<T>>, len: usize)
    ensures
        final(vectors)@.len() == old(vectors)@.len(),
        forall|i: int| 0 <= i < old(vectors)@.len() ==> (#[trigger] final(vectors)@[i])@
            == if len <= old(vectors)@[i]@.len() { old(vectors)@[i]@.subrange(0, len as int) } else { old(vectors)@[i]@ },
{
    let mut i: usize = 0;
    while i < vectors.len()
        invariant
            0 <= i <= vectors@.len(),
            vectors@.len() == old(vectors)@.len(),
            forall|k: int| 0 <= k < i ==> (#[trigger] vectors@[k])@
                == if len <= old(vectors)@[k]@.len() { old(vectors)@[k]@.subrange(0, len as int) } else { old(vectors)@[k]@ },
            forall|k: int| i <= k < vectors@.len() ==> #[trigger] vectors@[k] == old(vectors)@[k],
        decreases vectors@.len() - i,
    {
        vectors[i].truncate(len);
        i = i + 1;
    }
}

/// Truncation of a contribution's powers to `len` entries.
pub trait Truncate {
    fn truncate(&mut self, len: usize);
}

} // verus!
