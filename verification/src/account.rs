//! Validity of account identifiers.
//!
//! An account identifier is a sequence of 2 to 64 bytes made of lowercase
//! letters, digits, and the separators `-`, `_` and `.`; a separator may not
//! begin or end the identifier and two separators may not be adjacent. Store
//! sub-accounts are named `<prefix>.<factory>`, so a prefix is acceptable
//! exactly when that combined name is valid.

use vstd::prelude::*;
use vstd::string::StringSliceAdditionalSpecFns;

verus! {

/// The UTF-8 bytes of an identifier held as a `String`.
pub open spec fn string_bytes(s: &String) -> Seq<u8> {
    vstd::utf8::encode_utf8(s@)
}

/// A separator byte: `-`, `.` or `_`.
pub open spec fn spec_is_sep_byte(b: u8) -> bool {
    b == 45 || b == 46 || b == 95
}

/// A lowercase letter or digit.
pub open spec fn spec_is_alnum_byte(b: u8) -> bool {
    (48 <= b && b <= 57) || (97 <= b && b <= 122)
}

/// A valid account identifier, byte by byte.
pub open spec fn spec_valid_account_id(s: Seq<u8>) -> bool {
    &&& 2 <= s.len() && s.len() <= 64
    &&& forall|i: int|
        0 <= i < s.len() ==> spec_is_alnum_byte(#[trigger] s[i]) || spec_is_sep_byte(s[i])
    &&& !spec_is_sep_byte(s[0])
    &&& !spec_is_sep_byte(s[s.len() - 1])
    &&& forall|i: int| 1 <= i < s.len() ==> !(spec_is_sep_byte(#[trigger] s[i]) && spec_is_sep_byte(s[i - 1]))
}

/// The name of the sub-account deployed for `prefix` under the factory
/// account: `<prefix>.<factory>`, as bytes.
pub open spec fn spec_subaccount_bytes(prefix: Seq<u8>, factory: Seq<u8>) -> Seq<u8> {
    prefix + seq![46u8] + factory
}

/// Decides whether `s` is a valid account identifier.
pub fn is_valid_account_bytes(s: &[u8]) -> (b: bool)
    ensures
        b == spec_valid_account_id(s@),
{
    let n = s.len();
    if n < 2 || n > 64 {
        return false;
    }
    let mut last_is_sep = true;
    let mut i: usize = 0;
    while i < n
        invariant
            0 <= i <= n,
            n == s@.len(),
            2 <= n <= 64,
            forall|j: int|
                0 <= j < i ==> spec_is_alnum_byte(#[trigger] s@[j]) || spec_is_sep_byte(s@[j]),
            forall|j: int| 1 <= j < i ==> !(spec_is_sep_byte(#[trigger] s@[j]) && spec_is_sep_byte(s@[j - 1])),
            i > 0 ==> !spec_is_sep_byte(s@[0]),
            last_is_sep == if i == 0 { true } else { spec_is_sep_byte(s@[i - 1]) },
        decreases n - i,
    {
        let b = s[i];
        let cur_is_sep: bool = b == 45 || b == 46 || b == 95;
        let is_alnum: bool = (48 <= b && b <= 57) || (97 <= b && b <= 122);
        if !cur_is_sep && !is_alnum {
            return false;
        }
        if cur_is_sep && last_is_sep {
            return false;
        }
        last_is_sep = cur_is_sep;
        i = i + 1;
    }
    !last_is_sep
}

/// Decides whether `<prefix>.<factory>` is a valid account identifier.
pub fn is_valid_subaccount(prefix: &String, factory: &String) -> (b: bool)
    ensures
        b == spec_valid_account_id(
            spec_subaccount_bytes(string_bytes(prefix), string_bytes(factory)),
        ),
{
    let pb = prefix.as_str().as_bytes();
    let fb = factory.as_str().as_bytes();
    assert(pb@ == string_bytes(prefix));
    assert(fb@ == string_bytes(factory));
    let mut combined: Vec<u8> = Vec::new();
    let mut i: usize = 0;
    while i < pb.len()
        invariant
            0 <= i <= pb@.len(),
            combined@ == pb@.subrange(0, i as int),
        decreases pb@.len() - i,
    {
        combined.push(pb[i]);
        assert(combined@ =~= pb@.subrange(0, i + 1));
        i = i + 1;
    }
    assert(combined@ =~= pb@);
    combined.push(46);
    let mut j: usize = 0;
    while j < fb.len()
        invariant
            0 <= j <= fb@.len(),
            combined@ == pb@ + seq![46u8] + fb@.subrange(0, j as int),
        decreases fb@.len() - j,
    {
        combined.push(fb[j]);
        assert(combined@ =~= pb@ + seq![46u8] + fb@.subrange(0, j + 1));
        j = j + 1;
    }
    assert(combined@ =~= spec_subaccount_bytes(pb@, fb@));
    is_valid_account_bytes(combined.as_slice())
}

} // verus!
