//! Opaque bearer secrets: generation, the one-way digest transform, the
//! recognition gate for untrusted input, and the binary codec that carries a
//! digest across the storage boundary.

use sha2::{Digest, Sha256};
use vstd::prelude::*;
use vstd::string::StrSliceExecFns;

verus! {

/// Number of random characters in the suffix of a freshly issued secret.
pub const TOKEN_LENGTH: usize = 32;

/// Width in bytes of a SHA-256 digest, and so of the storage column.
pub const DIGEST_WIDTH: usize = 32;

/// The prefix of every secret of this credential class, as a sequence of
/// characters.
///
/// NEVER CHANGE THE PREFIX OF EXISTING TOKENS!!! Doing so will implicitly
/// revoke all the tokens, disrupting production users.
pub open spec fn spec_token_prefix() -> Seq<char> {
    seq!['c', 'i', 'o']
}

/// The prefix every secret of this credential class starts with.
pub fn token_prefix() -> (s: &'static str)
    ensures
        s@ == spec_token_prefix(),
{
    let s = "cio";
    proof {
        reveal_strlit("cio");
        assert(s@ =~= spec_token_prefix());
    }
    s
}

/// The SHA-256 digest of the UTF-8 bytes of a string, named abstractly: the
/// digest is a function of the characters alone.
pub uninterp spec fn sha256_of(s: Seq<char>) -> Seq<u8>;

/// Relies on sha2's `Sha256` (through the `Digest` trait): a deterministic
/// digest of the input bytes, 32 bytes wide.
#[verifier::external_body]
fn sha256_digest(plaintext: &str) -> (r: Vec<u8>)
    ensures
        r@ == sha256_of(plaintext@),
        r@.len() == DIGEST_WIDTH,
{
    Sha256::digest(plaintext.as_bytes()).as_slice().to_vec()
}

/// The hashed form of a secret: the only form allowed to cross into
/// persistent storage. The relation to the plaintext is strictly one-way.
pub struct HashedToken {
    sha256: Vec<u8>,
}

impl HashedToken {
    /// The digest this credential carries.
    pub closed spec fn digest(self) -> Seq<u8> {
        self.sha256@
    }

    /// A credential holds exactly one digest's worth of bytes, so its
    /// encoding is always a value the codec decodes again.
    pub open spec fn wf(self) -> bool {
        self.digest().len() == DIGEST_WIDTH
    }

    /// Recognition gate: hash the candidate only when it starts with this
    /// class's prefix; any other input is "no match", not an error.
    pub fn parse(plaintext: &str) -> (r: Option<HashedToken>)
        ensures
            r is Some <==> spec_token_prefix().is_prefix_of(plaintext@),
            r matches Some(t) ==> t.digest() == sha256_of(plaintext@) && t.wf(),
    {
        // This will both reject tokens without a prefix and tokens of the
        // wrong kind.
        if !starts_with_token_prefix(plaintext) {
            return None;
        }

        let sha256 = Self::hash(plaintext);
        Some(HashedToken { sha256 })
    }

    /// The digest transform: applied at issuance to produce what gets stored
    /// and at verification to produce what gets compared.
    pub fn hash(plaintext: &str) -> (r: Vec<u8>)
        ensures
            r@ == sha256_of(plaintext@),
            r@.len() == DIGEST_WIDTH,
    {
        sha256_digest(plaintext)
    }
}

/// An ASCII letter or digit: the alphabet a secret's random suffix is drawn
/// from (62 symbols, URL- and header-safe without escaping).
pub open spec fn spec_ascii_alphanumeric(c: char) -> bool {
    ||| 'a' <= c && c <= 'z'
    ||| 'A' <= c && c <= 'Z'
    ||| '0' <= c && c <= '9'
}

/// Every character of the sequence is an ASCII letter or digit.
pub open spec fn all_alphanumeric(s: Seq<char>) -> bool {
    forall|i: int| 0 <= i < s.len() ==> spec_ascii_alphanumeric(#[trigger] s[i])
}

/// Every character of the sequence is the alphabet symbol of some index
/// below 62: the sequence is the per-index image of a run of draws.
pub open spec fn all_from_alphabet(s: Seq<char>) -> bool {
    forall|k: int| #![trigger s[k]] 0 <= k < s.len() ==> exists|j: int|
        0 <= j < 62 && s[k] == #[trigger] spec_alphabet_char(j)
}

/// Relies on rand's `OsRng` and `Uniform`: a sample of `Uniform::from(0..n)`
/// lies below `n`; which value comes back is left open, as nothing may be
/// assumed of a random draw. If the operating system's entropy source fails,
/// the call aborts rather than degrade to a weaker source.
#[verifier::external_body]
fn random_index_below(n: usize) -> (r: usize)
    requires
        0 < n,
    ensures
        r < n,
{
    rand::Rng::sample(&mut rand::rngs::OsRng, rand::distributions::Uniform::from(0..n))
}

/// Relies on std's `String::push`: appends exactly one character at the end.
#[verifier::external_body]
pub(crate) fn push_char(s: &mut String, c: char)
    ensures
        final(s)@ == old(s)@.push(c),
{
    s.push(c);
}

/// The alphabet symbol at a given index: the 26 lowercase letters, then the
/// 26 uppercase letters, then the 10 digits.
pub open spec fn spec_alphabet_char(i: int) -> char {
    if i < 26 {
        ('a' as u8 + i as u8) as char
    } else if i < 52 {
        ('A' as u8 + (i - 26) as u8) as char
    } else {
        ('0' as u8 + (i - 52) as u8) as char
    }
}

/// The character a drawn index is turned into: exactly the alphabet symbol
/// at that index, so the suffix is the per-index image of its draws.
fn alphabet_char(i: usize) -> (c: char)
    requires
        i < 62,
    ensures
        c == spec_alphabet_char(i as int),
        spec_ascii_alphanumeric(c),
{
    if i < 26 {
        ('a' as u8 + i as u8) as char
    } else if i < 52 {
        ('A' as u8 + (i - 26) as u8) as char
    } else {
        ('0' as u8 + (i - 52) as u8) as char
    }
}

/// A string of the given length drawn uniformly, symbol by symbol, from the
/// 62-symbol alphanumeric alphabet, using the system's secure random source.
fn generate_secure_alphanumeric_string(len: usize) -> (r: String)
    ensures
        r@.len() == len,
        all_alphanumeric(r@),
        all_from_alphabet(r@),
{
    let mut r = String::new();
    let mut i: usize = 0;
    while i < len
        invariant
            i <= len,
            r@.len() == i,
            all_alphanumeric(r@),
            all_from_alphabet(r@),
        decreases len - i,
    {
        let idx = random_index_below(62);
        let c = alphabet_char(idx);
        push_char(&mut r, c);
        proof {
            assert(r@[i as int] == spec_alphabet_char(idx as int));
        }
        i = i + 1;
    }
    r
}

/// The error for a stored value whose width is not one digest: column
/// corruption, or a digest of a different hash function read with this code
/// path. Never silently truncated or padded.
#[derive(Debug)]
pub struct MalformedDigestError {
    /// The width the storage column is contracted to hold.
    pub expected: usize,
    /// The width that was actually read back.
    pub actual: usize,
}

/// The fixed placeholder that diagnostic output renders in place of a
/// credential: never the digest bytes.
pub open spec fn spec_debug_label() -> Seq<char> {
    seq!['H', 'a', 's', 'h', 'e', 'd', 'T', 'o', 'k', 'e', 'n']
}

impl HashedToken {
    /// Encode for the binary storage column: the digest bytes, as-is.
    pub fn to_bytes(&self) -> (r: Vec<u8>)
        ensures
            r@ == self.digest(),
    {
        vstd::slice::slice_to_vec(self.sha256.as_slice())
    }

    /// Decode a value read back from the binary storage column: the bytes are
    /// wrapped as-is, after the width check that guards against corruption
    /// and against a hash-function migration read with the old code path.
    pub fn from_bytes(bytes: Vec<u8>) -> (r: Result<HashedToken, MalformedDigestError>)
        ensures
            r is Ok <==> bytes@.len() == DIGEST_WIDTH,
            r matches Ok(t) ==> t.digest() == bytes@ && t.wf(),
            r matches Err(e) ==> e.expected == DIGEST_WIDTH && e.actual == bytes@.len(),
    {
        if bytes.len() == DIGEST_WIDTH {
            Ok(HashedToken { sha256: bytes })
        } else {
            Err(MalformedDigestError { expected: DIGEST_WIDTH, actual: bytes.len() })
        }
    }

    /// Diagnostic rendering: one fixed label, whatever the credential, so a
    /// log line can name the value without disclosing digest material.
    pub fn debug_label(&self) -> (r: String)
        ensures
            r@ == spec_debug_label(),
    {
        let s = String::from_str("HashedToken");
        proof {
            reveal_strlit("HashedToken");
            assert(s@ =~= spec_debug_label());
        }
        s
    }
}

/// A freshly issued secret, held in plaintext only for the single issuance
/// response; everything persisted is derived from it by the digest transform.
pub struct NewSecureToken {
    plaintext: String,
}

impl NewSecureToken {
    /// The characters of the secret.
    pub closed spec fn text(self) -> Seq<char> {
        self.plaintext@
    }

    /// The shape of a freshly issued secret: the class prefix first, a fixed
    /// total length, and an alphanumeric suffix.
    pub open spec fn wf(self) -> bool {
        &&& spec_token_prefix().is_prefix_of(self.text())
        &&& self.text().len() == spec_token_prefix().len() + TOKEN_LENGTH
        &&& all_alphanumeric(self.text().skip(spec_token_prefix().len() as int))
    }

    /// Issue a fresh secret: the class prefix followed by a random suffix of
    /// fixed length, each suffix character the alphabet symbol of its draw.
    pub fn generate() -> (r: NewSecureToken)
        ensures
            r.wf(),
            all_from_alphabet(r.text().skip(spec_token_prefix().len() as int)),
    {
        let mut plaintext = String::new();
        plaintext.append(token_prefix());
        let suffix = generate_secure_alphanumeric_string(TOKEN_LENGTH);
        plaintext.append(suffix.as_str());
        proof {
            assert(plaintext@.subrange(0, 3) =~= spec_token_prefix());
            assert(plaintext@.skip(3) =~= suffix@);
        }
        NewSecureToken { plaintext }
    }

    /// The plaintext, disclosed to the owner exactly once, at issuance.
    pub fn plaintext(&self) -> (r: &str)
        ensures
            r@ == self.text(),
    {
        self.plaintext.as_str()
    }

    /// The form of this secret that may be persisted: its digest.
    pub fn hashed(&self) -> (r: HashedToken)
        ensures
            r.digest() == sha256_of(self.text()),
            r.wf(),
    {
        let sha256 = HashedToken::hash(self.plaintext.as_str());
        HashedToken { sha256 }
    }
}

/// Whether the character sequence starts with the token prefix.
fn starts_with_token_prefix(s: &str) -> (r: bool)
    ensures
        r == spec_token_prefix().is_prefix_of(s@),
{
    let n = s.unicode_len();
    if n < 3 {
        proof {
            assert(!spec_token_prefix().is_prefix_of(s@));
        }
        return false;
    }
    let r = s.get_char(0) == 'c' && s.get_char(1) == 'i' && s.get_char(2) == 'o';
    proof {
        if r {
            assert(spec_token_prefix() =~= s@.subrange(0, 3));
        } else {
            assert(!spec_token_prefix().is_prefix_of(s@));
        }
    }
    r
}

/// Round-trip determinism: the digest transform is a function of the
/// plaintext alone, so any two digests taken over one plaintext agree.
pub proof fn lemma_digest_deterministic(p1: Seq<char>, p2: Seq<char>, d1: Seq<u8>, d2: Seq<u8>)
    requires
        p1 == p2,
        d1 == sha256_of(p1),
        d2 == sha256_of(p2),
    ensures
        d1 == d2,
{
}

/// Hash agreement: the digest stored at issuance and the digest computed at
/// verification agree whenever both were taken over the same secret's text.
pub proof fn lemma_hash_agreement(t: NewSecureToken, stored: HashedToken, presented: HashedToken)
    requires
        stored.digest() == sha256_of(t.text()),
        presented.digest() == sha256_of(t.text()),
    ensures
        stored.digest() == presented.digest(),
{
}

/// The recognition gate owes success to every freshly issued secret: a
/// well-formed secret's text starts with the class prefix, which is exactly
/// the condition under which `parse` returns a credential.
pub proof fn lemma_generated_token_recognized(t: NewSecureToken)
    requires
        t.wf(),
    ensures
        spec_token_prefix().is_prefix_of(t.text()),
{
}

/// End-to-end issuance and verification: for a fresh secret whose digest was
/// stored at issuance, any result meeting `parse`'s contract on the secret's
/// own plaintext is a match, and its digest equals the stored one.
pub proof fn lemma_issued_secret_verifies(
    t: NewSecureToken,
    stored: HashedToken,
    parsed: Option<HashedToken>,
)
    requires
        t.wf(),
        stored.digest() == sha256_of(t.text()),
        parsed is Some <==> spec_token_prefix().is_prefix_of(t.text()),
        parsed matches Some(x) ==> x.digest() == sha256_of(t.text()),
    ensures
        parsed is Some,
        parsed matches Some(x) ==> x.digest() == stored.digest(),
{
}

/// No leakage: the diagnostic rendering meets one constant specification,
/// whatever the credential, so any two renderings agree and the rendering
/// carries nothing of the digest or of the plaintext behind it.
pub proof fn lemma_debug_rendering_uniform(
    a: HashedToken,
    b: HashedToken,
    ra: Seq<char>,
    rb: Seq<char>,
)
    requires
        ra == spec_debug_label(),
        rb == spec_debug_label(),
    ensures
        ra == rb,
{
}

} // verus!
