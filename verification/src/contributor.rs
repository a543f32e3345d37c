use vstd::prelude::*;
use vstd::string::StrSliceExecFns;
use crate::keys::{ed25519_public_key, ed25519_public_key_valid, generate_signing_key, public_key_of};

verus! {

/// The 32 bytes of a compressed Ed25519 verifying key.
pub type VerifyingKeyBytes = [u8; 32];

/// The 32 secret bytes of an Ed25519 signing key.
pub type SigningKeyBytes = [u8; 32];

/// Byte-wise equality of two 32-byte keys.
pub fn keys_equal(a: &[u8; 32], b: &[u8; 32]) -> (r: bool)
    ensures
        r == (a@ == b@),
{
    let mut i: usize = 0;
    while i < 32
        invariant
            0 <= i <= 32,
            a@.len() == 32,
            b@.len() == 32,
            forall|j: int| 0 <= j < i ==> a@[j] == b@[j],
        decreases 32 - i,
    {
        if a[i] != b[i] {
            return false;
        }
        i = i + 1;
    }
    assert(a@ =~= b@);
    true
}

/// A participant of the ceremony, identified by its verifying key.
#[derive(Debug)]
pub struct Contributor {
    pub name: String,
    pub email: String,
    pub verifying_key: VerifyingKeyBytes,
}

impl Clone for Contributor {
    fn clone(&self) -> (r: Self)
        ensures
            r == *self,
    {
        Contributor { name: self.name.clone(), email: self.email.clone(), verifying_key: self.verifying_key }
    }
}

impl Contributor {
    /// Two contributors are the same record when name, email and key agree.
    pub open spec fn same_as(self, other: Contributor) -> bool {
        &&& self.name@ == other.name@
        &&& self.email@ == other.email@
        &&& self.verifying_key@ == other.verifying_key@
    }

    /// Creates a contributor with a fresh random Ed25519 key pair; returns the
    /// secret key bytes and the contributor, whose verifying key is derived from them.
    pub fn new(name: &str, email: &str) -> (r: (SigningKeyBytes, Contributor))
        ensures
            r.1.name@ == name@,
            r.1.email@ == email@,
            r.1.verifying_key@ == ed25519_public_key(r.0@),
            ed25519_public_key_valid(r.1.verifying_key@),
    {
        let signing_key = generate_signing_key();
        let verifying_key = public_key_of(&signing_key);
        (signing_key, Contributor { name: name.to_owned(), email: email.to_owned(), verifying_key })
    }

    /// Builds a contributor record from its parts.
    pub fn new_with_verifying_key(name: &str, email: &str, verifying_key: VerifyingKeyBytes) -> (c: Self)
        ensures
            c.name@ == name@,
            c.email@ == email@,
            c.verifying_key == verifying_key,
    {
        Contributor { name: name.to_owned(), email: email.to_owned(), verifying_key }
    }

    /// Field-wise comparison of two contributor records.
    pub fn equals(&self, other: &Contributor) -> (r: bool)
        ensures
            r == self.same_as(*other),
    {
        self.name == other.name && self.email == other.email && keys_equal(&self.verifying_key, &other.verifying_key)
    }
}

/// Where one contributor stands relative to another in the contributors' order.
#[derive(Debug, Clone, Copy, PartialEq, Eq, Structural)]
pub enum Precedence {
    Before,
    Same,
    After,
}

/// Lexicographic order of two character sequences (as strings compare):
/// -1 when `a` comes first, 0 when they are equal, 1 when `b` comes first.
pub open spec fn lex_order(a: Seq<char>, b: Seq<char>) -> int
    decreases a.len(),
{
    if a.len() == 0 && b.len() == 0 {
        0
    } else if a.len() == 0 {
        -1
    } else if b.len() == 0 {
        1
    } else if a[0] < b[0] {
        -1
    } else if a[0] > b[0] {
        1
    } else {
        lex_order(a.drop_first(), b.drop_first())
    }
}

/// Contributors are ordered by name, then by email.
pub open spec fn contributor_order(a: Contributor, b: Contributor) -> int {
    if lex_order(a.name@, b.name@) != 0 {
        lex_order(a.name@, b.name@)
    } else {
        lex_order(a.email@, b.email@)
    }
}

/// Lexicographic comparison of two strings (see `lex_order`).
fn compare_text(a: &str, b: &str) -> (r: i8)
    ensures
        r == lex_order(a@, b@),
{
    let n = a.unicode_len();
    let m = b.unicode_len();
    let mut i: usize = 0;
    assert(a@.subrange(0, n as int) =~= a@ && b@.subrange(0, m as int) =~= b@);
    while i < n && i < m
        invariant
            n == a@.len(),
            m == b@.len(),
            0 <= i <= n,
            i <= m,
            lex_order(a@, b@) == lex_order(a@.subrange(i as int, n as int), b@.subrange(i as int, m as int)),
        decreases n - i,
    {
        let x = a.get_char(i);
        let y = b.get_char(i);
        proof {
            let sa = a@.subrange(i as int, n as int);
            let sb = b@.subrange(i as int, m as int);
            assert(sa[0] == x && sb[0] == y);
            assert(sa.drop_first() =~= a@.subrange(i + 1, n as int));
            assert(sb.drop_first() =~= b@.subrange(i + 1, m as int));
        }
        if x < y {
            return -1;
        }
        if x > y {
            return 1;
        }
        i = i + 1;
    }
    if i == n && i == m {
        0
    } else if i == n {
        -1
    } else {
        1
    }
}

impl Contributor {
    /// The contributors' order: by name, then by email; the verifying key plays no part.
    pub fn precedence(&self, other: &Contributor) -> (r: Precedence)
        ensures
            r == (if contributor_order(*self, *other) < 0 {
                Precedence::Before
            } else if contributor_order(*self, *other) == 0 {
                Precedence::Same
            } else {
                Precedence::After
            }),
    {
        let by_name = compare_text(self.name.as_str(), other.name.as_str());
        let c = if by_name != 0 { by_name } else { compare_text(self.email.as_str(), other.email.as_str()) };
        if c < 0 {
            Precedence::Before
        } else if c == 0 {
            Precedence::Same
        } else {
            Precedence::After
        }
    }
}

/// Lexicographic order is antisymmetric: swapping the two sequences reverses it.
pub proof fn lemma_lex_order_antisymmetric(a: Seq<char>, b: Seq<char>)
    ensures
        lex_order(a, b) == -lex_order(b, a),
    decreases a.len(),
{
    if a.len() > 0 && b.len() > 0 && a[0] == b[0] {
        lemma_lex_order_antisymmetric(a.drop_first(), b.drop_first());
    }
}

/// Two sequences are level in lexicographic order exactly when they are equal.
pub proof fn lemma_lex_order_zero_iff_equal(a: Seq<char>, b: Seq<char>)
    ensures
        lex_order(a, b) == 0 <==> a == b,
    decreases a.len(),
{
    if a.len() == 0 && b.len() == 0 {
        assert(a =~= b);
    } else if a.len() == 0 || b.len() == 0 {
        assert(a.len() != b.len());
    } else if a[0] == b[0] {
        lemma_lex_order_zero_iff_equal(a.drop_first(), b.drop_first());
        if a.drop_first() == b.drop_first() {
            assert(a =~= b) by {
                assert forall|i: int| 0 <= i < a.len() implies a[i] == b[i] by {
                    if i > 0 {
                        assert(a[i] == a.drop_first()[i - 1]);
                        assert(b[i] == b.drop_first()[i - 1]);
                    }
                }
            }
        } else {
            assert(a != b) by {
                if a == b {
                    assert(a.drop_first() =~= b.drop_first());
                }
            }
        }
    } else {
        assert(a != b);
    }
}

} // verus!
