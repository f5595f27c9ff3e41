//! Keyword tagging: the name-validation rule, and the pure compute halves of
//! the keyword CRUD paths, whose storage reads and writes live with the
//! application's database layer.

use vstd::prelude::*;
use vstd::string::StrSliceExecFns;

use crate::token::spec_ascii_alphanumeric;

verus! {

/// A keyword row as the tagging logic reads it; the creation time is held as
/// a Unix timestamp in seconds.
pub struct Keyword {
    pub id: i32,
    pub keyword: String,
    pub crates_cnt: i32,
    pub created_at: i64,
}

/// A row associating one crate with one keyword.
pub struct CrateKeyword {
    pub crate_id: i32,
    pub keyword_id: i32,
}

/// A character allowed after the first one of a keyword name.
pub open spec fn spec_keyword_char(c: char) -> bool {
    spec_ascii_alphanumeric(c) || c == '_' || c == '-' || c == '+'
}

/// A valid keyword name: non-empty, opening with an ASCII letter or digit,
/// and made only of ASCII letters, digits, '_', '-' and '+' after that.
pub open spec fn spec_valid_name(s: Seq<char>) -> bool {
    &&& s.len() > 0
    &&& spec_ascii_alphanumeric(s[0])
    &&& forall|i: int| 1 <= i < s.len() ==> spec_keyword_char(#[trigger] s[i])
}

/// What std's `str::to_lowercase` returns, named abstractly: the Unicode
/// lowercase folding is a function of the characters alone.
pub uninterp spec fn lower_of(s: Seq<char>) -> Seq<char>;

/// Relies on std's `str::to_lowercase`: the lowercase folding of the string,
/// depending on the characters alone; an empty string stays empty.
#[verifier::external_body]
fn to_lowercase(s: &str) -> (r: String)
    ensures
        r@ == lower_of(s@),
        s@.len() == 0 ==> r@.len() == 0,
{
    s.to_lowercase()
}

/// Whether one character may stand after the first of a keyword name.
fn keyword_char(c: char) -> (r: bool)
    ensures
        r == spec_keyword_char(c),
{
    ascii_alphanumeric(c) || c == '_' || c == '-' || c == '+'
}

/// Whether a character is an ASCII letter or digit.
fn ascii_alphanumeric(c: char) -> (r: bool)
    ensures
        r == spec_ascii_alphanumeric(c),
{
    ('a' <= c && c <= 'z') || ('A' <= c && c <= 'Z') || ('0' <= c && c <= '9')
}

impl Keyword {
    /// The rule a keyword name must satisfy before it may be stored.
    pub fn valid_name(name: &str) -> (r: bool)
        ensures
            r == spec_valid_name(name@),
    {
        let n = name.unicode_len();
        if n == 0 {
            return false;
        }
        if !ascii_alphanumeric(name.get_char(0)) {
            return false;
        }
        let mut i: usize = 1;
        while i < n
            invariant
                1 <= i <= n,
                n == name@.len(),
                spec_ascii_alphanumeric(name@[0]),
                forall|j: int| 1 <= j < i ==> spec_keyword_char(#[trigger] name@[j]),
            decreases n - i,
        {
            if !keyword_char(name.get_char(i)) {
                return false;
            }
            i = i + 1;
        }
        true
    }

    /// The compute half of looking up or creating keyword rows: every row is
    /// keyed by the lowercase folding of its name, in the order given.
    pub fn lowercase_all(names: &Vec<String>) -> (r: Vec<String>)
        ensures
            r@.len() == names@.len(),
            forall|i: int| 0 <= i < r@.len() ==> (#[trigger] r@[i])@ == lower_of(names@[i]@),
    {
        let mut r: Vec<String> = Vec::new();
        let mut i: usize = 0;
        while i < names.len()
            invariant
                i <= names@.len(),
                r@.len() == i,
                forall|j: int| 0 <= j < i ==> (#[trigger] r@[j])@ == lower_of(names@[j]@),
            decreases names@.len() - i,
        {
            r.push(to_lowercase(names[i].as_str()));
            i = i + 1;
        }
        r
    }

    /// The compute half of re-tagging a crate: the association rows that link
    /// the crate to each keyword row, in the order given.
    pub fn crate_keyword_pairs(crate_id: i32, keywords: &Vec<Keyword>) -> (r: Vec<CrateKeyword>)
        ensures
            r@.len() == keywords@.len(),
            forall|i: int| 0 <= i < r@.len() ==> (#[trigger] r@[i]).crate_id == crate_id
                && r@[i].keyword_id == keywords@[i].id,
    {
        let mut r: Vec<CrateKeyword> = Vec::new();
        let mut i: usize = 0;
        while i < keywords.len()
            invariant
                i <= keywords@.len(),
                r@.len() == i,
                forall|j: int| 0 <= j < i ==> (#[trigger] r@[j]).crate_id == crate_id
                    && r@[j].keyword_id == keywords@[j].id,
            decreases keywords@.len() - i,
        {
            r.push(CrateKeyword { crate_id, keyword_id: keywords[i].id });
            i = i + 1;
        }
        r
    }
}

} // verus!
