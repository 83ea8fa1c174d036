//! The release record and version normalization.
//!
//! A release record holds the three strings extracted from the releases API:
//! the version tag, the publication timestamp and the release page URL. The
//! version is normalized on construction: every leading `v` character is
//! removed; the other two fields pass through unmodified.

use vstd::prelude::*;
use vstd::string::*;

verus! {

/// The version string with every leading `v` character removed.
pub open spec fn strip_leading_v(s: Seq<char>) -> Seq<char>
    decreases s.len(),
{
    if s.len() > 0 && s[0] == 'v' {
        strip_leading_v(s.skip(1))
    } else {
        s
    }
}

/// A normalized version never starts with `v`.
pub open spec fn no_leading_v(s: Seq<char>) -> bool {
    s.len() > 0 ==> s[0] != 'v'
}

/// Stripping leaves no leading `v` behind.
pub proof fn lemma_strip_no_leading_v(s: Seq<char>)
    ensures
        no_leading_v(strip_leading_v(s)),
    decreases s.len(),
{
    if s.len() > 0 && s[0] == 'v' {
        lemma_strip_no_leading_v(s.skip(1));
    }
}

/// Normalization is a no-op on a version with no leading `v`.
pub proof fn lemma_strip_noop(s: Seq<char>)
    requires
        no_leading_v(s),
    ensures
        strip_leading_v(s) == s,
{
}

/// Normalization is idempotent: stripping a second time changes nothing.
pub proof fn lemma_strip_idempotent(s: Seq<char>)
    ensures
        strip_leading_v(strip_leading_v(s)) == strip_leading_v(s),
{
    lemma_strip_no_leading_v(s);
    lemma_strip_noop(strip_leading_v(s));
}

/// If the first `k` characters are `v` and the `k`-th is not (or the string
/// ends there), stripping drops exactly those `k` characters.
proof fn lemma_strip_is_skip(s: Seq<char>, k: int)
    requires
        0 <= k <= s.len(),
        forall|j: int| 0 <= j < k ==> s[j] == 'v',
        k < s.len() ==> s[k] != 'v',
    ensures
        strip_leading_v(s) == s.skip(k),
    decreases k,
{
    if k == 0 {
        assert(s.skip(0) =~= s);
    } else {
        lemma_strip_is_skip(s.skip(1), k - 1);
        assert(s.skip(1).skip(k - 1) =~= s.skip(k));
    }
}

/// Index just past the leading run of `v` characters, scanning from `i`.
fn leading_v_end(s: &str, i: usize, n: usize) -> (r: usize)
    requires
        i <= n,
        n == s@.len(),
        forall|j: int| 0 <= j < i ==> s@[j] == 'v',
    ensures
        i <= r <= n,
        forall|j: int| 0 <= j < r ==> s@[j] == 'v',
        r < n ==> s@[r as int] != 'v',
    decreases n - i,
{
    if i < n && s.get_char(i) == 'v' {
        leading_v_end(s, i + 1, n)
    } else {
        i
    }
}

/// Removes every leading `v` character from a version string.
pub fn normalize_version(s: &str) -> (r: String)
    ensures
        r@ == strip_leading_v(s@),
{
    let n: usize = s.unicode_len();
    let i: usize = leading_v_end(s, 0, n);
    let sub = s.substring_char(i, n);
    proof {
        lemma_strip_is_skip(s@, i as int);
        assert(sub@ =~= s@.skip(i as int));
    }
    String::from_str(sub)
}

/// The latest release of the project: a normalized version, the publication
/// timestamp and the release page URL, both passed through unmodified.
pub struct ReleaseRecord {
    pub version: String,
    pub published_at: String,
    pub html_url: String,
}

impl ReleaseRecord {
    /// The record invariant: the version never starts with `v`.
    pub open spec fn wf(self) -> bool {
        no_leading_v(self.version@)
    }

    /// Builds a record from the raw API fields, normalizing the version tag.
    pub fn new(tag: &str, published_at: String, html_url: String) -> (r: ReleaseRecord)
        ensures
            r.version@ == strip_leading_v(tag@),
            r.published_at == published_at,
            r.html_url == html_url,
            r.wf(),
    {
        let version = normalize_version(tag);
        proof {
            lemma_strip_no_leading_v(tag@);
        }
        ReleaseRecord { version, published_at, html_url }
    }
}

} // verus!
