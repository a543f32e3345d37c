use vstd::prelude::*;
use vstd::string::StringSliceAdditionalSpecFns;
use vstd::utf8::encode_utf8;
use crate::contributor::{Contributor, SigningKeyBytes, VerifyingKeyBytes};
use crate::hexcodec::{hex_decode, lemma_hex_text_bytes, hex_encode, lemma_hex_round_trip, spec_hex_decode, spec_hex_encode};
use crate::keys::{ed25519_public_key_valid, public_key_is_valid};

verus! {

/// The longest sequence BCS encodes (`bcs::MAX_SEQUENCE_LENGTH`).
pub const BCS_MAX_SEQUENCE_LENGTH: usize = 2147483647;

/// The ULEB128 encoding of `n`: seven bits per byte, lowest first, with the high
/// bit set on every byte but the last.
pub open spec fn uleb128(n: nat) -> Seq<u8>
    decreases n,
{
    if n < 128 {
        seq![n as u8]
    } else {
        seq![((n % 128) + 128) as u8] + uleb128(n / 128)
    }
}

/// The BCS encoding of a byte sequence: its length in ULEB128, then its bytes.
pub open spec fn bcs_bytes(b: Seq<u8>) -> Seq<u8> {
    uleb128(b.len()) + b
}

/// The BCS encoding of `(signing key bytes, (name, email, verifying key bytes))`,
/// which is also the encoding of a `(SigningKey, Contributor)` pair: a tuple is
/// its fields back to back, a string its UTF-8 bytes.
pub open spec fn bcs_keypair_bytes(sk: Seq<u8>, name: Seq<char>, email: Seq<char>, vk: Seq<u8>) -> Seq<u8> {
    bcs_bytes(sk) + bcs_bytes(encode_utf8(name)) + bcs_bytes(encode_utf8(email)) + bcs_bytes(vk)
}

/// BCS decoding of bytes as `(bytes, (string, string, bytes))`, if they are such an encoding.
pub uninterp spec fn bcs_keypair_parse(data: Seq<u8>) -> Option<(Seq<u8>, Seq<char>, Seq<char>, Seq<u8>)>;

/// `bcs::to_bytes` on `(&[u8], (&str, &str, &[u8]))`: each sequence's length
/// (`output_seq_len`, ULEB128) followed by its bytes. It fails only on a sequence
/// longer than `bcs::MAX_SEQUENCE_LENGTH`; what it produces decodes back to its input.
#[verifier::external_body]
fn bcs_encode_keypair(sk: &[u8], name: &str, email: &str, vk: &[u8]) -> (r: Option<Vec<u8>>)
    ensures
        match r {
            Some(b) => b@ == bcs_keypair_bytes(sk@, name@, email@, vk@)
                && bcs_keypair_parse(b@) == Some((sk@, name@, email@, vk@)),
            None => !(sk@.len() <= BCS_MAX_SEQUENCE_LENGTH && name.spec_bytes().len() <= BCS_MAX_SEQUENCE_LENGTH
                && email.spec_bytes().len() <= BCS_MAX_SEQUENCE_LENGTH && vk@.len() <= BCS_MAX_SEQUENCE_LENGTH),
        },
{
    bcs::to_bytes(&(sk, (name, email, vk))).ok()
}

/// `bcs::from_bytes` as `(Vec<u8>, (String, String, Vec<u8>))`.
#[verifier::external_body]
fn bcs_decode_keypair(data: &[u8]) -> (r: Option<(Vec<u8>, String, String, Vec<u8>)>)
    ensures
        match r {
            Some((sk, name, email, vk)) => bcs_keypair_parse(data@) == Some((sk@, name@, email@, vk@)),
            None => bcs_keypair_parse(data@) is None,
        },
{
    match bcs::from_bytes::<(Vec<u8>, (String, String, Vec<u8>))>(data) {
        Ok((sk, (name, email, vk))) => Some((sk, name, email, vk)),
        Err(_) => None,
    }
}

/// Why a key pair could not be written as or read from hexadecimal text.
#[derive(Debug, Clone, Copy, PartialEq, Eq, Structural)]
pub enum KeypairHexError {
    /// A name or email is too long to encode.
    TooLong,
    /// The text is not hexadecimal.
    InvalidHex,
    /// The bytes are not an encoded key pair.
    InvalidEncoding,
    /// A key does not have 32 bytes.
    WrongKeyLength,
    /// The verifying key is not a curve point.
    InvalidVerifyingKey,
}

/// Conversion of a key pair to and from the hexadecimal text handed to contributors.
pub trait AsAndFromHex: Sized {
    fn as_hex(&self) -> Result<String, KeypairHexError>;

    fn from_hex(hex: &str) -> Result<Self, KeypairHexError>;
}

/// Copies 32 bytes out of a vector of length 32.
fn to_array32(v: &Vec<u8>) -> (a: [u8; 32])
    requires
        v@.len() == 32,
    ensures
        a@ == v@,
{
    let mut a = [0u8; 32];
    let mut i: usize = 0;
    while i < 32
        invariant
            0 <= i <= 32,
            v@.len() == 32,
            a@.len() == 32,
            forall|j: int| 0 <= j < i ==> a@[j] == v@[j],
        decreases 32 - i,
    {
        a[i] = v[i];
        i = i + 1;
    }
    assert(a@ =~= v@);
    a
}

/// Copies 32 bytes into a vector.
fn to_vec32(a: &[u8; 32]) -> (v: Vec<u8>)
    ensures
        v@ == a@,
{
    let mut v: Vec<u8> = Vec::new();
    let mut i: usize = 0;
    while i < 32
        invariant
            0 <= i <= 32,
            a@.len() == 32,
            v@ == a@.subrange(0, i as int),
        decreases 32 - i,
    {
        v.push(a[i]);
        i = i + 1;
    }
    assert(a@.subrange(0, 32) =~= a@);
    v
}

/// What reading a key pair from hexadecimal text yields.
pub open spec fn spec_keypair_from_hex(text: Seq<u8>) -> Result<(Seq<u8>, Seq<char>, Seq<char>, Seq<u8>), KeypairHexError> {
    match spec_hex_decode(text) {
        None => Err(KeypairHexError::InvalidHex),
        Some(bytes) => match bcs_keypair_parse(bytes) {
            None => Err(KeypairHexError::InvalidEncoding),
            Some((sk, name, email, vk)) => if sk.len() != 32 || vk.len() != 32 {
                Err(KeypairHexError::WrongKeyLength)
            } else if !ed25519_public_key_valid(vk) {
                Err(KeypairHexError::InvalidVerifyingKey)
            } else {
                Ok((sk, name, email, vk))
            },
        },
    }
}

impl AsAndFromHex for (SigningKeyBytes, Contributor) {
    /// Hexadecimal of the BCS encoding of the pair.
    fn as_hex(&self) -> (r: Result<String, KeypairHexError>)
        ensures
            match r {
                Ok(s) => s@ == spec_hex_encode(bcs_keypair_bytes(self.0@, self.1.name@, self.1.email@, self.1.verifying_key@))
                    && spec_keypair_from_hex(encode_utf8(s@))
                        == (if self.1.verifying_key@.len() == 32 && ed25519_public_key_valid(self.1.verifying_key@) {
                            Ok::<_, KeypairHexError>((self.0@, self.1.name@, self.1.email@, self.1.verifying_key@))
                        } else {
                            Err(KeypairHexError::InvalidVerifyingKey)
                        }),
                Err(e) => e == KeypairHexError::TooLong
                    && !(encode_utf8(self.1.name@).len() <= BCS_MAX_SEQUENCE_LENGTH
                        && encode_utf8(self.1.email@).len() <= BCS_MAX_SEQUENCE_LENGTH),
            },
    {
        let sk = to_vec32(&self.0);
        let vk = to_vec32(&self.1.verifying_key);
        match bcs_encode_keypair(sk.as_slice(), self.1.name.as_str(), self.1.email.as_str(), vk.as_slice()) {
            Some(bytes) => {
                let s = hex_encode(bytes.as_slice());
                proof {
                    lemma_hex_round_trip(bytes@);
                    lemma_hex_text_bytes(bytes@);
                }
                Ok(s)
            },
            None => Err(KeypairHexError::TooLong),
        }
    }

    /// Reads a key pair from hexadecimal text: the text must decode to the BCS
    /// encoding of a 32-byte secret, a name, an email and a valid 32-byte verifying key.
    fn from_hex(hex: &str) -> (r: Result<Self, KeypairHexError>)
        ensures
            match (r, spec_keypair_from_hex(hex.spec_bytes())) {
                (Ok(kp), Ok((sk, name, email, vk))) => kp.0@ == sk && kp.1.name@ == name
                    && kp.1.email@ == email && kp.1.verifying_key@ == vk,
                (Err(e), Err(f)) => e == f,
                _ => false,
            },
    {
        let bytes = match hex_decode(hex.as_bytes()) {
            Some(b) => b,
            None => return Err(KeypairHexError::InvalidHex),
        };
        let (sk, name, email, vk) = match bcs_decode_keypair(bytes.as_slice()) {
            Some(parts) => parts,
            None => return Err(KeypairHexError::InvalidEncoding),
        };
        if sk.len() != 32 || vk.len() != 32 {
            return Err(KeypairHexError::WrongKeyLength);
        }
        let sk_bytes = to_array32(&sk);
        let vk_bytes = to_array32(&vk);
        if !public_key_is_valid(&vk_bytes) {
            return Err(KeypairHexError::InvalidVerifyingKey);
        }
        Ok((sk_bytes, Contributor { name, email, verifying_key: vk_bytes }))
    }
}

/// What reading a verifying key from hexadecimal text yields.
pub open spec fn spec_verifying_key_from_hex(text: Seq<u8>) -> Result<Seq<u8>, KeypairHexError> {
    match spec_hex_decode(text) {
        None => Err(KeypairHexError::InvalidHex),
        Some(bytes) => if bytes.len() != 32 {
            Err(KeypairHexError::WrongKeyLength)
        } else if !ed25519_public_key_valid(bytes) {
            Err(KeypairHexError::InvalidVerifyingKey)
        } else {
            Ok(bytes)
        },
    }
}

/// A verifying key as the hexadecimal text stored in the contributors table and
/// in the server's settings.
impl AsAndFromHex for VerifyingKeyBytes {
    /// Lowercase hexadecimal of the key's 32 bytes.
    fn as_hex(&self) -> (r: Result<String, KeypairHexError>)
        ensures
            r matches Ok(s) && s@ == spec_hex_encode(self@),
    {
        Ok(hex_encode(self))
    }

    /// Reads a verifying key: 32 bytes in hexadecimal that decompress to a curve point.
    fn from_hex(hex: &str) -> (r: Result<Self, KeypairHexError>)
        ensures
            match (r, spec_verifying_key_from_hex(hex.spec_bytes())) {
                (Ok(k), Ok(bytes)) => k@ == bytes,
                (Err(e), Err(f)) => e == f,
                _ => false,
            },
    {
        let bytes = match hex_decode(hex.as_bytes()) {
            Some(b) => b,
            None => return Err(KeypairHexError::InvalidHex),
        };
        if bytes.len() != 32 {
            return Err(KeypairHexError::WrongKeyLength);
        }
        let key = to_array32(&bytes);
        if !public_key_is_valid(&key) {
            return Err(KeypairHexError::InvalidVerifyingKey);
        }
        Ok(key)
    }
}

/// Reading back the hexadecimal text of a valid verifying key gives the key.
pub proof fn lemma_verifying_key_hex_round_trip(key: Seq<u8>)
    requires
        key.len() == 32,
        ed25519_public_key_valid(key),
    ensures
        spec_verifying_key_from_hex(encode_utf8(spec_hex_encode(key))) == Ok::<Seq<u8>, KeypairHexError>(key),
{
    lemma_hex_text_bytes(key);
    lemma_hex_round_trip(key);
}

} // verus!
