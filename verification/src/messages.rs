use vstd::prelude::*;
use crate::contributor::{Contributor, SigningKeyBytes, VerifyingKeyBytes};
use crate::error::{ErrorKind, ErrorWithCode, UNAUTHORIZED};
use crate::keys::{ed25519_accepts, ed25519_public_key, ed25519_signature, sign_bytes, verify_bytes};

verus! {

/// The requests a client can send to the ceremony server.
#[derive(Debug)]
pub enum Msg {
    Report,
    DownloadAll,
    DownloadLatest,
    Register { contributor: Contributor },
    Join { contributor: Contributor, test_download_secs: u64, test_compute_secs: u64, test_upload_secs: u64 },
    GetStatus { contributor: Contributor },
    UpdateDownloadProgress { finished: bool, contributor: Contributor },
    UpdateComputeProgress { finished: bool, contributor: Contributor },
    UpdateUploadProgress { finished: bool, hash: String, contributor: Contributor },
    GetTestContributionDownloadLink { contributor: Contributor },
    GetTestContributionUploadLink { contributor: Contributor },
}

impl Clone for Msg {
    fn clone(&self) -> (r: Self)
        ensures
            r == *self,
    {
        match self {
            Msg::Report => Msg::Report,
            Msg::DownloadAll => Msg::DownloadAll,
            Msg::DownloadLatest => Msg::DownloadLatest,
            Msg::Register { contributor } => Msg::Register { contributor: contributor.clone() },
            Msg::Join { contributor, test_download_secs, test_compute_secs, test_upload_secs } => Msg::Join {
                contributor: contributor.clone(),
                test_download_secs: *test_download_secs,
                test_compute_secs: *test_compute_secs,
                test_upload_secs: *test_upload_secs,
            },
            Msg::GetStatus { contributor } => Msg::GetStatus { contributor: contributor.clone() },
            Msg::UpdateDownloadProgress { finished, contributor } =>
                Msg::UpdateDownloadProgress { finished: *finished, contributor: contributor.clone() },
            Msg::UpdateComputeProgress { finished, contributor } =>
                Msg::UpdateComputeProgress { finished: *finished, contributor: contributor.clone() },
            Msg::UpdateUploadProgress { finished, hash, contributor } =>
                Msg::UpdateUploadProgress { finished: *finished, hash: hash.clone(), contributor: contributor.clone() },
            Msg::GetTestContributionDownloadLink { contributor } =>
                Msg::GetTestContributionDownloadLink { contributor: contributor.clone() },
            Msg::GetTestContributionUploadLink { contributor } =>
                Msg::GetTestContributionUploadLink { contributor: contributor.clone() },
        }
    }
}

/// `true` or `false`, as text.
pub open spec fn bool_text(b: bool) -> Seq<char> {
    if b { "true"@ } else { "false"@ }
}

/// The one-line description of a request used in logs.
pub open spec fn spec_description(m: Msg) -> Seq<char> {
    match m {
        Msg::Report => "Report"@,
        Msg::DownloadAll => "DownloadAll"@,
        Msg::DownloadLatest => "DownloadLatest"@,
        Msg::Register { contributor } => "Register from "@ + contributor.name@,
        Msg::Join { contributor, .. } => "Join from "@ + contributor.name@,
        Msg::GetStatus { contributor } => "GetStatus from "@ + contributor.name@,
        Msg::UpdateDownloadProgress { finished, contributor } =>
            "UpdateDownloadProgress("@ + bool_text(finished) + ") from "@ + contributor.name@,
        Msg::UpdateComputeProgress { finished, contributor } =>
            "UpdateComputeProgress("@ + bool_text(finished) + ") from "@ + contributor.name@,
        Msg::UpdateUploadProgress { finished, contributor, .. } =>
            "UpdateUploadProgress("@ + bool_text(finished) + ") from "@ + contributor.name@,
        Msg::GetTestContributionDownloadLink { contributor } =>
            "GetTestContributionDownloadLink from "@ + contributor.name@,
        Msg::GetTestContributionUploadLink { contributor } =>
            "GetTestContributionUploadLink from "@ + contributor.name@,
    }
}

fn bool_str(b: bool) -> (s: &'static str)
    ensures
        s@ == bool_text(b),
{
    if b { "true" } else { "false" }
}

/// `prefix` followed by `name`.
fn prefixed(prefix: &str, name: &String) -> (s: String)
    ensures
        s@ == prefix@ + name@,
{
    let mut s = String::from_str(prefix);
    s.append(name.as_str());
    s
}

/// `prefix(flag) from name`.
fn flagged(prefix: &str, finished: bool, name: &String) -> (s: String)
    ensures
        s@ == prefix@ + bool_text(finished) + ") from "@ + name@,
{
    let mut s = String::from_str(prefix);
    s.append(bool_str(finished));
    s.append(") from ");
    s.append(name.as_str());
    s
}

/// The verifying key that must have signed a request: the contributor's own key
/// for a contributor's request, the administrator's key for an administrative one.
pub open spec fn required_signer(m: Msg, admin: Seq<u8>) -> Seq<u8> {
    match m {
        Msg::Join { contributor, .. } => contributor.verifying_key@,
        Msg::GetStatus { contributor } => contributor.verifying_key@,
        Msg::UpdateDownloadProgress { contributor, .. } => contributor.verifying_key@,
        Msg::UpdateComputeProgress { contributor, .. } => contributor.verifying_key@,
        Msg::UpdateUploadProgress { contributor, .. } => contributor.verifying_key@,
        Msg::GetTestContributionDownloadLink { contributor } => contributor.verifying_key@,
        Msg::GetTestContributionUploadLink { contributor } => contributor.verifying_key@,
        Msg::Register { .. } => admin,
        Msg::Report => admin,
        Msg::DownloadAll => admin,
        Msg::DownloadLatest => admin,
    }
}

/// Whether a request is one only the administrator may send.
pub open spec fn is_admin_request(m: Msg) -> bool {
    m is Register || m is Report || m is DownloadAll || m is DownloadLatest
}

impl Msg {
    /// The one-line description of a request used in logs.
    pub fn description(&self) -> (s: String)
        ensures
            s@ == spec_description(*self),
    {
        match self {
            Msg::Report => String::from_str("Report"),
            Msg::DownloadAll => String::from_str("DownloadAll"),
            Msg::DownloadLatest => String::from_str("DownloadLatest"),
            Msg::Register { contributor } => prefixed("Register from ", &contributor.name),
            Msg::Join { contributor, .. } => prefixed("Join from ", &contributor.name),
            Msg::GetStatus { contributor } => prefixed("GetStatus from ", &contributor.name),
            Msg::UpdateDownloadProgress { finished, contributor } =>
                flagged("UpdateDownloadProgress(", *finished, &contributor.name),
            Msg::UpdateComputeProgress { finished, contributor } =>
                flagged("UpdateComputeProgress(", *finished, &contributor.name),
            Msg::UpdateUploadProgress { finished, contributor, .. } =>
                flagged("UpdateUploadProgress(", *finished, &contributor.name),
            Msg::GetTestContributionDownloadLink { contributor } =>
                prefixed("GetTestContributionDownloadLink from ", &contributor.name),
            Msg::GetTestContributionUploadLink { contributor } =>
                prefixed("GetTestContributionUploadLink from ", &contributor.name),
        }
    }

    /// Signs a request. `encoded` is the request's BCS encoding, the bytes a
    /// signature covers.
    pub fn sign(self, sk: &SigningKeyBytes, encoded: &[u8]) -> (r: AuthenticatedMsg)
        ensures
            r.inner == self,
            r.signature@ == ed25519_signature(sk@, encoded@),
            ed25519_accepts(ed25519_public_key(sk@), encoded@, r.signature@),
    {
        let signature = sign_bytes(sk, encoded);
        AuthenticatedMsg { inner: self, signature }
    }
}

/// A request together with a signature over its encoding.
#[derive(Debug)]
pub struct AuthenticatedMsg {
    pub inner: Msg,
    pub signature: [u8; 64],
}

impl AuthenticatedMsg {
    /// Whether the signature over `encoded` (the BCS encoding of the request) is
    /// accepted for the given verifying key.
    pub fn verify_sig(&self, verifying_key: &VerifyingKeyBytes, encoded: &[u8]) -> (ok: bool)
        ensures
            ok == ed25519_accepts(verifying_key@, encoded@, self.signature@),
    {
        verify_bytes(verifying_key, encoded, &self.signature)
    }
}

/// The key that must have signed a request, given the administrator's key.
pub fn required_signer_key(m: &Msg, admin_key: &VerifyingKeyBytes) -> (k: VerifyingKeyBytes)
    ensures
        k@ == required_signer(*m, admin_key@),
{
    match m {
        Msg::Join { contributor, .. } => contributor.verifying_key,
        Msg::GetStatus { contributor } => contributor.verifying_key,
        Msg::UpdateDownloadProgress { contributor, .. } => contributor.verifying_key,
        Msg::UpdateComputeProgress { contributor, .. } => contributor.verifying_key,
        Msg::UpdateUploadProgress { contributor, .. } => contributor.verifying_key,
        Msg::GetTestContributionDownloadLink { contributor } => contributor.verifying_key,
        Msg::GetTestContributionUploadLink { contributor } => contributor.verifying_key,
        Msg::Register { .. } => *admin_key,
        Msg::Report => *admin_key,
        Msg::DownloadAll => *admin_key,
        Msg::DownloadLatest => *admin_key,
    }
}

/// Accepts a request exactly when it is signed by the key it must be signed with
/// (see `required_signer`); refuses it with 401 otherwise.
pub fn verify_correctly_authenticated(msg: &AuthenticatedMsg, encoded: &[u8], admin_key: &VerifyingKeyBytes) -> (r: Result<(), ErrorWithCode>)
    ensures
        r is Ok <==> ed25519_accepts(required_signer(msg.inner, admin_key@), encoded@, msg.signature@),
        r matches Err(e) ==> e.code == Some(UNAUTHORIZED)
            && e.error == (ErrorKind::Unauthorized { admin: is_admin_request(msg.inner) }),
{
    let key = required_signer_key(&msg.inner, admin_key);
    if msg.verify_sig(&key, encoded) {
        Ok(())
    } else {
        let admin = match &msg.inner {
            Msg::Register { .. } | Msg::Report | Msg::DownloadAll | Msg::DownloadLatest => true,
            _ => false,
        };
        Err(ErrorWithCode { error: ErrorKind::Unauthorized { admin }, code: Some(UNAUTHORIZED) })
    }
}

/// A request signed with the key of its required signer is accepted.
pub proof fn lemma_signed_request_is_accepted(m: Msg, sk: Seq<u8>, admin: Seq<u8>, encoded: Seq<u8>, sig: Seq<u8>)
    requires
        ed25519_public_key(sk) == required_signer(m, admin),
        ed25519_accepts(ed25519_public_key(sk), encoded, sig),
    ensures
        ed25519_accepts(required_signer(m, admin), encoded, sig),
{
}

} // verus!
