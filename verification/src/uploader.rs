//! Artifact locations: where a crate archive or readme is addressed, for a
//! remote bucket-style backend (optionally behind a CDN) and for the local
//! development tree. The transfers themselves live with the application's
//! storage layer; this module only computes paths and URLs.

use vstd::prelude::*;
use vstd::string::{StrSliceExecFns, StringExecFns};

use crate::token::push_char;

verus! {

/// Which bucket an upload is destined for.
pub enum UploadBucket {
    Default,
    Index,
}

/// The storage backend as the location logic reads it: a bucket-style remote
/// backend is addressed by its public host, optionally behind a CDN host;
/// the local backend serves uploads from the local tree's root.
pub enum Uploader {
    S3 { host: String, cdn: Option<String> },
    Local,
}

/// How one character of a version is written inside a URL: '+' must be
/// percent-encoded, every other character stands as itself.
pub open spec fn spec_encoded_char(c: char) -> Seq<char> {
    if c == '+' {
        seq!['%', '2', 'B']
    } else {
        seq![c]
    }
}

/// A version string as it appears inside a location URL.
pub open spec fn spec_encoded_version(s: Seq<char>) -> Seq<char>
    decreases s.len(),
{
    if s.len() == 0 {
        Seq::empty()
    } else {
        spec_encoded_char(s[0]) + spec_encoded_version(s.skip(1))
    }
}

/// Encoding a version commutes with appending one character at its end.
proof fn lemma_encoded_version_push(s: Seq<char>, c: char)
    ensures
        spec_encoded_version(s.push(c)) == spec_encoded_version(s) + spec_encoded_char(c),
    decreases s.len(),
{
    if s.len() == 0 {
        assert(s.push(c)[0] == c);
        assert(s.push(c).skip(1) =~= Seq::<char>::empty());
        assert(spec_encoded_version(s.push(c)) == spec_encoded_char(c)
            + spec_encoded_version(Seq::<char>::empty()));
        assert(spec_encoded_version(s.push(c)) =~= spec_encoded_version(s)
            + spec_encoded_char(c));
    } else {
        assert(s.push(c).skip(1) =~= s.skip(1).push(c));
        lemma_encoded_version_push(s.skip(1), c);
        assert(spec_encoded_version(s.push(c)) =~= spec_encoded_version(s)
            + spec_encoded_char(c));
    }
}

/// A version as written inside a location URL: '+' becomes "%2B", every
/// other character stands as itself.
pub fn version_for_url(version: &str) -> (r: String)
    ensures
        r@ == spec_encoded_version(version@),
{
    let n = version.unicode_len();
    let mut r = String::new();
    let mut i: usize = 0;
    proof {
        assert(version@.take(0) =~= Seq::<char>::empty());
    }
    while i < n
        invariant
            i <= n,
            n == version@.len(),
            r@ == spec_encoded_version(version@.take(i as int)),
        decreases n - i,
    {
        let c = version.get_char(i);
        if c == '+' {
            r.append("%2B");
            proof {
                reveal_strlit("%2B");
                assert("%2B"@ =~= spec_encoded_char('+'));
            }
        } else {
            push_char(&mut r, c);
            proof {
                assert(r@ =~= spec_encoded_version(version@.take(i as int))
                    + spec_encoded_char(c));
            }
        }
        proof {
            lemma_encoded_version_push(version@.take(i as int), version@[i as int]);
            assert(version@.take(i + 1) =~= version@.take(i as int).push(version@[i as int]));
        }
        i = i + 1;
    }
    proof {
        assert(version@.take(n as int) =~= version@);
    }
    r
}

/// The internal path of an uploaded crate's version archive.
pub open spec fn spec_crate_path(name: Seq<char>, version: Seq<char>) -> Seq<char> {
    "crates/"@ + name + "/"@ + name + "-"@ + version + ".crate"@
}

/// The internal path of an uploaded crate's version readme.
pub open spec fn spec_readme_path(name: Seq<char>, version: Seq<char>) -> Seq<char> {
    "readmes/"@ + name + "/"@ + name + "-"@ + version + ".html"@
}

/// A URL on a host, over https.
pub open spec fn spec_https_location(host: Seq<char>, path: Seq<char>) -> Seq<char> {
    "https://"@ + host + "/"@ + path
}

/// Where a stored path is addressed under a backend: behind the CDN host
/// when one is configured, else on the backend's own host; the local
/// backend serves from the root.
pub open spec fn spec_location(up: Uploader, path: Seq<char>) -> Seq<char> {
    match up {
        Uploader::S3 { host, cdn } => match cdn {
            Some(c) => spec_https_location(c@, path),
            None => spec_https_location(host@, path),
        },
        Uploader::Local => "/"@ + path,
    }
}

impl Uploader {
    /// Returns the internal path of an uploaded crate's version archive.
    pub fn crate_path(name: &str, version: &str) -> (r: String)
        ensures
            r@ == spec_crate_path(name@, version@),
    {
        let mut r = String::from_str("crates/");
        r.append(name);
        r.append("/");
        r.append(name);
        r.append("-");
        r.append(version);
        r.append(".crate");
        r
    }

    /// Returns the internal path of an uploaded crate's version readme.
    pub fn readme_path(name: &str, version: &str) -> (r: String)
        ensures
            r@ == spec_readme_path(name@, version@),
    {
        let mut r = String::from_str("readmes/");
        r.append(name);
        r.append("/");
        r.append(name);
        r.append("-");
        r.append(version);
        r.append(".html");
        r
    }

    /// Where a stored path is addressed under this backend.
    fn location_of(&self, path: &str) -> (r: String)
        ensures
            r@ == spec_location(*self, path@),
    {
        match self {
            Uploader::S3 { host, cdn } => {
                let h: &String = match cdn {
                    Some(c) => c,
                    None => host,
                };
                let mut r = String::from_str("https://");
                r.append(h.as_str());
                r.append("/");
                r.append(path);
                r
            },
            Uploader::Local => {
                let mut r = String::from_str("/");
                r.append(path);
                r
            },
        }
    }

    /// Returns the URL of an uploaded crate's version archive.
    ///
    /// The function doesn't check for the existence of the file.
    pub fn crate_location(&self, crate_name: &str, version: &str) -> (r: String)
        ensures
            r@ == spec_location(
                *self,
                spec_crate_path(crate_name@, spec_encoded_version(version@)),
            ),
    {
        let version = version_for_url(version);
        let path = Self::crate_path(crate_name, version.as_str());
        self.location_of(path.as_str())
    }

    /// Returns the URL of an uploaded crate's version readme.
    ///
    /// The function doesn't check for the existence of the file.
    pub fn readme_location(&self, crate_name: &str, version: &str) -> (r: String)
        ensures
            r@ == spec_location(
                *self,
                spec_readme_path(crate_name@, spec_encoded_version(version@)),
            ),
    {
        let version = version_for_url(version);
        let path = Self::readme_path(crate_name, version.as_str());
        self.location_of(path.as_str())
    }
}

} // verus!
