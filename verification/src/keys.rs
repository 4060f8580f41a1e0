//! Key-type names and their normalization.
//!
//! A key type arrives as a free-form string and is classified once, at the
//! boundary, into the closed [`KeyType`] enum; the normalized value is what
//! the rest of the module stores and dispatches on.

use vstd::prelude::*;

verus! {

/// Cryptographic scheme classification for the oracle's public key.
#[derive(Clone, Copy, Debug, PartialEq, Eq, Structural)]
pub enum KeyType {
    Secp256k1,
    Ed25519,
}

/// ASCII lower-casing of a single character; anything outside `'A'..='Z'`
/// is left unchanged.
pub open spec fn lower_char(c: char) -> char {
    if 'A' <= c && c <= 'Z' {
        (((c as u8) + 32) as u8) as char
    } else {
        c
    }
}

/// ASCII lower-casing of a character sequence.
pub open spec fn lower_chars(s: Seq<char>) -> Seq<char> {
    s.map_values(|c: char| lower_char(c))
}

/// The normalization relation: which strings name which key type.
/// Matching is ASCII-case-insensitive; `secp256k1`, `k256` and `ecdsa`
/// name [`KeyType::Secp256k1`], `ed25519` and `ed` name
/// [`KeyType::Ed25519`], and every other string is invalid.
///
/// ASCII-only folding is the intended reading: the alias set is ASCII,
/// so only the 26 basic letters take part in case-insensitivity, and a
/// string whose characters fold to an alias only under a wider Unicode
/// mapping does not match.
pub open spec fn normalize_key_type(s: Seq<char>) -> Option<KeyType> {
    let l = lower_chars(s);
    if l == "secp256k1"@ || l == "k256"@ || l == "ecdsa"@ {
        Some(KeyType::Secp256k1)
    } else if l == "ed25519"@ || l == "ed"@ {
        Some(KeyType::Ed25519)
    } else {
        None
    }
}

/// Normalization is ASCII-case-insensitive: strings that agree after
/// lower-casing are classified alike.
pub proof fn lemma_normalize_case_insensitive(a: Seq<char>, b: Seq<char>)
    requires
        lower_chars(a) == lower_chars(b),
    ensures
        normalize_key_type(a) == normalize_key_type(b),
{
}

/// Executable ASCII lower-casing, matching [`lower_char`].
fn lower_char_exec(c: char) -> (r: char)
    ensures
        r == lower_char(c),
{
    if 'A' <= c && c <= 'Z' {
        let b: u8 = c as u8;
        (b + 32) as char
    } else {
        c
    }
}

/// ASCII-case-insensitive equality of two string slices.
fn str_eq_ignore_ascii_case(s: &str, t: &str) -> (r: bool)
    ensures
        r == (lower_chars(s@) == lower_chars(t@)),
{
    let n = s.unicode_len();
    let m = t.unicode_len();
    if n != m {
        proof {
            assert(lower_chars(s@).len() != lower_chars(t@).len());
        }
        return false;
    }
    let mut i: usize = 0;
    while i < n
        invariant
            n == s@.len(),
            n == t@.len(),
            i <= n,
            forall|j: int| 0 <= j < i ==> lower_chars(s@)[j] == lower_chars(t@)[j],
        decreases n - i,
    {
        let a = lower_char_exec(s.get_char(i));
        let b = lower_char_exec(t.get_char(i));
        if a != b {
            proof {
                assert(lower_chars(s@)[i as int] != lower_chars(t@)[i as int]);
            }
            return false;
        }
        i += 1;
    }
    proof {
        assert(lower_chars(s@) =~= lower_chars(t@));
    }
    true
}

/// The five alias strings are already lower-case, so each is a fixed point
/// of [`lower_chars`].
proof fn lemma_alias_literals_lowercase()
    ensures
        lower_chars("secp256k1"@) == "secp256k1"@,
        lower_chars("k256"@) == "k256"@,
        lower_chars("ecdsa"@) == "ecdsa"@,
        lower_chars("ed25519"@) == "ed25519"@,
        lower_chars("ed"@) == "ed"@,
{
    reveal_strlit("secp256k1");
    reveal_strlit("k256");
    reveal_strlit("ecdsa");
    reveal_strlit("ed25519");
    reveal_strlit("ed");
    assert(lower_chars("secp256k1"@) =~= "secp256k1"@);
    assert(lower_chars("k256"@) =~= "k256"@);
    assert(lower_chars("ecdsa"@) =~= "ecdsa"@);
    assert(lower_chars("ed25519"@) =~= "ed25519"@);
    assert(lower_chars("ed"@) =~= "ed"@);
}

/// Classifies a key-type name, ASCII-case-insensitively, into the closed
/// [`KeyType`] enum; unknown names yield `None`.
pub fn parse_key_type(s: &str) -> (r: Option<KeyType>)
    ensures
        r == normalize_key_type(s@),
{
    proof {
        lemma_alias_literals_lowercase();
    }
    if str_eq_ignore_ascii_case(s, "secp256k1") || str_eq_ignore_ascii_case(s, "k256")
        || str_eq_ignore_ascii_case(s, "ecdsa") {
        Some(KeyType::Secp256k1)
    } else if str_eq_ignore_ascii_case(s, "ed25519") || str_eq_ignore_ascii_case(s, "ed") {
        Some(KeyType::Ed25519)
    } else {
        None
    }
}

} // verus!
