use vstd::prelude::*;
use crate::contributor::{Contributor, SigningKeyBytes};
use crate::handlers::StatusResponse;
use crate::keypair::{AsAndFromHex, KeypairHexError, spec_keypair_from_hex, bcs_keypair_bytes, BCS_MAX_SEQUENCE_LENGTH};
use crate::hexcodec::spec_hex_encode;
use crate::keys::{ed25519_public_key, ed25519_public_key_valid};

verus! {

/// How waiting in the queue ended.
#[derive(Debug)]
pub enum QueueOutcome {
    /// It is our turn; the link of the previous contribution, if there is one.
    ReadyToDownload(Option<String>),
    /// We have already contributed.
    AlreadyFinished,
    /// The server has our contribution and is verifying it.
    Verifying,
}

/// What a client waiting in the queue does with a status answer.
#[derive(Debug)]
pub enum QueueStep {
    /// Send a join request (we had not joined).
    Join,
    /// Send a join request again (we were kicked, for the given reason).
    Rejoin(String),
    /// Keep waiting; we are at this position.
    Wait(usize),
    /// The server still thinks we are mid-contribution; wait for it to time us out.
    WaitForTimeout,
    /// Stop waiting.
    Done(QueueOutcome),
}

/// The queue-waiting decision for one status answer.
pub fn queue_step(response: StatusResponse) -> (step: QueueStep)
    ensures
        match response {
            StatusResponse::DidntJoin => step == QueueStep::Join,
            StatusResponse::Kicked(e) => step == QueueStep::Rejoin(e),
            StatusResponse::WaitingInQueue(pos) => step == QueueStep::Wait(pos),
            StatusResponse::ReadyToDownloadPrevious(url) => step == QueueStep::Done(QueueOutcome::ReadyToDownload(url)),
            StatusResponse::Finished => step == QueueStep::Done(QueueOutcome::AlreadyFinished),
            StatusResponse::Verifying => step == QueueStep::Done(QueueOutcome::Verifying),
            StatusResponse::WaitingForContributionWithPrevious(_) => step == QueueStep::WaitForTimeout,
            StatusResponse::ReadyForUpload(_) => step == QueueStep::WaitForTimeout,
        },
{
    match response {
        StatusResponse::DidntJoin => QueueStep::Join,
        StatusResponse::Kicked(e) => QueueStep::Rejoin(e),
        StatusResponse::WaitingInQueue(pos) => QueueStep::Wait(pos),
        StatusResponse::ReadyToDownloadPrevious(url) => QueueStep::Done(QueueOutcome::ReadyToDownload(url)),
        StatusResponse::Finished => QueueStep::Done(QueueOutcome::AlreadyFinished),
        StatusResponse::Verifying => QueueStep::Done(QueueOutcome::Verifying),
        StatusResponse::WaitingForContributionWithPrevious(_) => QueueStep::WaitForTimeout,
        StatusResponse::ReadyForUpload(_) => QueueStep::WaitForTimeout,
    }
}

/// What a client waiting for the verification of its contribution does with a
/// status answer.
#[derive(Debug)]
pub enum VerificationWait {
    /// The contribution passed.
    Finished,
    /// Still verifying; ask again.
    KeepWaiting,
    /// We were kicked, for the given reason.
    Kicked(String),
    /// The server answered something that cannot happen at this point.
    Unexpected,
}

/// The verification-waiting decision for one status answer.
pub fn verification_step(response: StatusResponse) -> (step: VerificationWait)
    ensures
        match response {
            StatusResponse::Kicked(e) => step == VerificationWait::Kicked(e),
            StatusResponse::Finished => step == VerificationWait::Finished,
            StatusResponse::Verifying => step == VerificationWait::KeepWaiting,
            _ => step == VerificationWait::Unexpected,
        },
{
    match response {
        StatusResponse::Kicked(e) => VerificationWait::Kicked(e),
        StatusResponse::Finished => VerificationWait::Finished,
        StatusResponse::Verifying => VerificationWait::KeepWaiting,
        _ => VerificationWait::Unexpected,
    }
}

/// Which of the three speed tests took longer than its cutoff.
#[derive(Debug, Clone, Copy, PartialEq, Eq, Structural)]
pub struct SpeedTestVerdict {
    pub download_too_slow: bool,
    pub compute_too_slow: bool,
    pub upload_too_slow: bool,
}

impl SpeedTestVerdict {
    /// Whether every test was fast enough.
    pub fn passed(&self) -> (ok: bool)
        ensures
            ok == (!self.download_too_slow && !self.compute_too_slow && !self.upload_too_slow),
    {
        !self.download_too_slow && !self.compute_too_slow && !self.upload_too_slow
    }
}

/// Compares measured durations (in nanoseconds) with their cutoffs; a test fails
/// when it took strictly longer than its cutoff.
pub fn speed_test_verdict(
    download_nanos: u128,
    compute_nanos: u128,
    upload_nanos: u128,
    download_cutoff_nanos: u128,
    compute_cutoff_nanos: u128,
    upload_cutoff_nanos: u128,
) -> (v: SpeedTestVerdict)
    ensures
        v.download_too_slow == (download_nanos > download_cutoff_nanos),
        v.compute_too_slow == (compute_nanos > compute_cutoff_nanos),
        v.upload_too_slow == (upload_nanos > upload_cutoff_nanos),
{
    SpeedTestVerdict {
        download_too_slow: download_nanos > download_cutoff_nanos,
        compute_too_slow: compute_nanos > compute_cutoff_nanos,
        upload_too_slow: upload_nanos > upload_cutoff_nanos,
    }
}

/// A line of the administrator's key-pair sheet.
#[derive(Debug)]
pub enum KeypairsRow {
    /// A person without a key pair yet.
    NoKeypair { name: String, email: String },
    /// A person with a key pair.
    HasKeypair { signing_key: SigningKeyBytes, contributor: Contributor },
}

/// Why a key-pair sheet line was refused.
#[derive(Debug, Clone, Copy, PartialEq, Eq, Structural)]
pub enum KeypairsError {
    /// A line lacks a key pair while all lines must have one.
    MissingKeypair,
    /// A line lacks its name or email column.
    MissingColumn,
    /// The key-pair column could not be read.
    InvalidKeypair(KeypairHexError),
    /// The key pair belongs to a person with another name.
    NameMismatch,
    /// The key pair belongs to a person with another email.
    EmailMismatch,
}

impl KeypairsRow {
    /// The key pair of the line; refused when the line has none.
    pub fn must_have_keypair(self) -> (r: Result<(SigningKeyBytes, Contributor), KeypairsError>)
        ensures
            match self {
                KeypairsRow::HasKeypair { signing_key, contributor } => r == Ok::<_, KeypairsError>((signing_key, contributor)),
                KeypairsRow::NoKeypair { .. } => r == Err::<(SigningKeyBytes, Contributor), _>(KeypairsError::MissingKeypair),
            },
    {
        match self {
            KeypairsRow::HasKeypair { signing_key, contributor } => Ok((signing_key, contributor)),
            KeypairsRow::NoKeypair { .. } => Err(KeypairsError::MissingKeypair),
        }
    }

    /// The key pair of the line, generating a fresh one for a line without.
    pub fn add_keypair_if_needed(self) -> (r: (SigningKeyBytes, Contributor))
        ensures
            match self {
                KeypairsRow::HasKeypair { signing_key, contributor } => r == (signing_key, contributor),
                KeypairsRow::NoKeypair { name, email } => r.1.name@ == name@ && r.1.email@ == email@
                    && r.1.verifying_key@ == ed25519_public_key(r.0@) && ed25519_public_key_valid(r.1.verifying_key@),
            },
    {
        match self {
            KeypairsRow::HasKeypair { signing_key, contributor } => (signing_key, contributor),
            KeypairsRow::NoKeypair { name, email } => Contributor::new(name.as_str(), email.as_str()),
        }
    }
}

/// Reads one line of the key-pair sheet: name, email and an optional key pair in
/// hexadecimal, which must belong to a person with the same name and email.
pub fn parse_keypairs_record(fields: &Vec<String>) -> (r: Result<KeypairsRow, KeypairsError>)
    ensures
        fields@.len() < 2 <==> r == Err::<KeypairsRow, _>(KeypairsError::MissingColumn),
        fields@.len() == 2 ==> (r matches Ok(KeypairsRow::NoKeypair { name, email })
            && name@ == fields@[0]@ && email@ == fields@[1]@),
        fields@.len() > 2 ==> match spec_keypair_from_hex(vstd::utf8::encode_utf8(fields@[2]@)) {
            Err(e) => r == Err::<KeypairsRow, _>(KeypairsError::InvalidKeypair(e)),
            Ok((sk, name, email, vk)) => if name != fields@[0]@ {
                r == Err::<KeypairsRow, _>(KeypairsError::NameMismatch)
            } else if email != fields@[1]@ {
                r == Err::<KeypairsRow, _>(KeypairsError::EmailMismatch)
            } else {
                r matches Ok(KeypairsRow::HasKeypair { signing_key, contributor })
                    && signing_key@ == sk && contributor.name@ == name && contributor.email@ == email
                    && contributor.verifying_key@ == vk
            },
        },
{
    if fields.len() < 2 {
        return Err(KeypairsError::MissingColumn);
    }
    let name = fields[0].clone();
    let email = fields[1].clone();
    if fields.len() == 2 {
        return Ok(KeypairsRow::NoKeypair { name, email });
    }
    match <(SigningKeyBytes, Contributor)>::from_hex(fields[2].as_str()) {
        Err(e) => Err(KeypairsError::InvalidKeypair(e)),
        Ok((signing_key, contributor)) => {
            if name != contributor.name {
                Err(KeypairsError::NameMismatch)
            } else if email != contributor.email {
                Err(KeypairsError::EmailMismatch)
            } else {
                Ok(KeypairsRow::HasKeypair { signing_key, contributor })
            }
        },
    }
}

/// The key-pair sheet line of a person: name, email and the key pair in
/// hexadecimal. Reading the line back gives the same key pair.
pub fn keypairs_record(signing_key: &SigningKeyBytes, contributor: &Contributor) -> (r: Result<Vec<String>, KeypairHexError>)
    ensures
        match r {
            Ok(fields) => {
                &&& fields@.len() == 3
                &&& fields@[0]@ == contributor.name@
                &&& fields@[1]@ == contributor.email@
                &&& fields@[2]@ == spec_hex_encode(
                    bcs_keypair_bytes(signing_key@, contributor.name@, contributor.email@, contributor.verifying_key@),
                )
                &&& ed25519_public_key_valid(contributor.verifying_key@) ==> spec_keypair_from_hex(
                    vstd::utf8::encode_utf8(fields@[2]@),
                ) == Ok::<_, KeypairHexError>(
                    (signing_key@, contributor.name@, contributor.email@, contributor.verifying_key@),
                )
            },
            Err(e) => e == KeypairHexError::TooLong && !(vstd::utf8::encode_utf8(contributor.name@).len()
                <= BCS_MAX_SEQUENCE_LENGTH && vstd::utf8::encode_utf8(contributor.email@).len() <= BCS_MAX_SEQUENCE_LENGTH),
        },
{
    let pair = (*signing_key, contributor.clone());
    let hex = pair.as_hex()?;
    let mut fields: Vec<String> = Vec::new();
    fields.push(contributor.name.clone());
    fields.push(contributor.email.clone());
    fields.push(hex);
    Ok(fields)
}

} // verus!
