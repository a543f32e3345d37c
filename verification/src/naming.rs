use vstd::prelude::*;
use vstd::string::StrSliceExecFns;
use crate::contributor::{Contributor, VerifyingKeyBytes};
use crate::hexcodec::{hex_encode, spec_hex_encode};

verus! {

/// The character of decimal digit `d`.
pub open spec fn digit_char(d: nat) -> char {
    (d + 48) as char
}

/// The decimal digits of `n`, most significant first, without leading zeros.
pub open spec fn decimal(n: nat) -> Seq<char>
    decreases n,
{
    if n < 10 {
        seq![digit_char(n)]
    } else {
        decimal(n / 10).push(digit_char(n % 10))
    }
}

/// `n` in decimal, padded with zeros on the left to at least three digits.
pub open spec fn decimal_padded3(n: nat) -> Seq<char> {
    if decimal(n).len() < 3 {
        Seq::new((3 - decimal(n).len()) as nat, |i: int| '0') + decimal(n)
    } else {
        decimal(n)
    }
}

/// `s` with every space turned into a hyphen.
pub open spec fn spaces_to_hyphens(s: Seq<char>) -> Seq<char> {
    s.map_values(|c: char| if c == ' ' { '-' } else { c })
}

/// Where a contributor's contribution is stored in the bucket.
pub open spec fn spec_object_name(key: Seq<u8>) -> Seq<char> {
    "contributions/"@ + spec_hex_encode(key) + ".bin"@
}

/// The file a downloaded contribution is saved to: its 1-based place in the
/// order of contributions (three digits at least), the contributor's verifying
/// key in hexadecimal and the contributor's name with hyphens for spaces.
pub open spec fn spec_contribution_file_name(place: nat, key: Seq<u8>, name: Seq<char>) -> Seq<char> {
    decimal_padded3(place) + "-"@ + spec_hex_encode(key) + "-"@ + spaces_to_hyphens(name) + ".contrib"@
}

fn digit_str(d: usize) -> (s: &'static str)
    requires
        d < 10,
    ensures
        s@ == seq![digit_char(d as nat)],
{
    proof {
        reveal_strlit("0");
        reveal_strlit("1");
        reveal_strlit("2");
        reveal_strlit("3");
        reveal_strlit("4");
        reveal_strlit("5");
        reveal_strlit("6");
        reveal_strlit("7");
        reveal_strlit("8");
        reveal_strlit("9");
    }
    let s = if d == 0 {
        "0"
    } else if d == 1 {
        "1"
    } else if d == 2 {
        "2"
    } else if d == 3 {
        "3"
    } else if d == 4 {
        "4"
    } else if d == 5 {
        "5"
    } else if d == 6 {
        "6"
    } else if d == 7 {
        "7"
    } else if d == 8 {
        "8"
    } else {
        "9"
    };
    assert(s@ =~= seq![digit_char(d as nat)]);
    s
}

/// `n` in decimal.
pub fn decimal_string(n: usize) -> (s: String)
    ensures
        s@ == decimal(n as nat),
{
    decimal_string_u64(n as u64)
}

fn decimal_string_u64(n: u64) -> (s: String)
    ensures
        s@ == decimal(n as nat),
    decreases n,
{
    if n < 10 {
        String::from_str(digit_str(n as usize))
    } else {
        let mut s = decimal_string_u64(n / 10);
        s.append(digit_str((n % 10) as usize));
        s
    }
}

/// `i` in decimal, with a minus sign in front when it is negative.
pub open spec fn signed_decimal(i: int) -> Seq<char> {
    if i < 0 {
        "-"@ + decimal((-i) as nat)
    } else {
        decimal(i as nat)
    }
}

/// `n` in decimal, with a minus sign in front when it is negative.
pub fn signed_decimal_string(n: i64) -> (s: String)
    ensures
        s@ == signed_decimal(n as int),
{
    if n < 0 {
        let magnitude: u64 = (0i128 - n as i128) as u64;
        let digits = decimal_string_u64(magnitude);
        let mut s = String::from_str("-");
        s.append(digits.as_str());
        proof {
            reveal_strlit("-");
        }
        s
    } else {
        decimal_string_u64(n as u64)
    }
}

proof fn lemma_decimal_nonempty(n: nat)
    ensures
        decimal(n).len() >= 1,
    decreases n,
{
    if n >= 10 {
        lemma_decimal_nonempty(n / 10);
    }
}

/// `n` in decimal, at least three digits.
fn decimal_padded3_string(n: usize) -> (s: String)
    ensures
        s@ == decimal_padded3(n as nat),
{
    let d = decimal_string(n);
    proof {
        lemma_decimal_nonempty(n as nat);
        reveal_strlit("0");
        reveal_strlit("00");
    }
    let len = d.as_str().unicode_len();
    if len >= 3 {
        d
    } else if len == 2 {
        let mut s = String::from_str("0");
        s.append(d.as_str());
        assert(s@ =~= decimal_padded3(n as nat));
        s
    } else {
        let mut s = String::from_str("00");
        s.append(d.as_str());
        assert(s@ =~= decimal_padded3(n as nat));
        s
    }
}

/// `s` with every space turned into a hyphen.
fn replace_spaces(s: &str) -> (r: String)
    ensures
        r@ == spaces_to_hyphens(s@),
{
    let n = s.unicode_len();
    let mut r = String::new();
    let mut i: usize = 0;
    while i < n
        invariant
            n == s@.len(),
            0 <= i <= n,
            r@ == spaces_to_hyphens(s@.subrange(0, i as int)),
        decreases n - i,
    {
        let c = s.get_char(i);
        let ghost before = r@;
        if c == ' ' {
            r.append("-");
            proof {
                reveal_strlit("-");
            }
            assert("-"@ =~= seq!['-']);
        } else {
            let piece = s.substring_char(i, i + 1);
            assert(piece@ =~= seq![c]);
            r.append(piece);
        }
        assert(r@ =~= before.push(if c == ' ' { '-' } else { c }));
        assert(spaces_to_hyphens(s@.subrange(0, i + 1)) =~= spaces_to_hyphens(s@.subrange(0, i as int)).push(
            if c == ' ' { '-' } else { c },
        ));
        assert(r@ =~= spaces_to_hyphens(s@.subrange(0, i + 1)));
        i = i + 1;
    }
    assert(s@.subrange(0, n as int) =~= s@);
    r
}

/// Where a contributor's contribution is stored in the bucket:
/// `contributions/<verifying key in hexadecimal>.bin`.
pub fn object_name(contributor: &Contributor) -> (s: String)
    ensures
        s@ == spec_object_name(contributor.verifying_key@),
{
    let mut s = String::from_str("contributions/");
    let key = hex_encode(&contributor.verifying_key);
    s.append(key.as_str());
    s.append(".bin");
    s
}

/// The file the contribution at 0-based `index` of a bulk download is saved to
/// (see `spec_contribution_file_name`).
pub fn contribution_file_name(index: usize, key: &VerifyingKeyBytes, name: &str) -> (s: String)
    requires
        index < usize::MAX,
    ensures
        s@ == spec_contribution_file_name(index as nat + 1, key@, name@),
{
    let mut s = decimal_padded3_string(index + 1);
    s.append("-");
    let key_hex = hex_encode(key);
    s.append(key_hex.as_str());
    s.append("-");
    let name_part = replace_spaces(name);
    s.append(name_part.as_str());
    s.append(".contrib");
    s
}

} // verus!
