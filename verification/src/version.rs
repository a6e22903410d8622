use vstd::prelude::*;

use crate::errors::SourceError;

verus! {

/// A parsed semantic version: `major.minor.patch`, optionally followed by a
/// hyphen and a nonempty pre-release suffix.
#[derive(Debug)]
pub struct Version {
    pub major: u64,
    pub minor: u64,
    pub patch: u64,
    /// The pre-release suffix; empty when the version has none.
    pub pre: String,
}

/// The mathematical value of a [`Version`].
#[verifier::ext_equal]
pub struct VersionView {
    pub major: int,
    pub minor: int,
    pub patch: int,
    pub pre: Seq<char>,
}

impl View for Version {
    type V = VersionView;

    open spec fn view(&self) -> VersionView {
        VersionView {
            major: self.major as int,
            minor: self.minor as int,
            patch: self.patch as int,
            pre: self.pre@,
        }
    }
}

pub open spec fn is_digit(c: char) -> bool {
    48 <= c as int && c as int <= 57
}

pub open spec fn all_digits(s: Seq<char>) -> bool {
    forall|i: int| 0 <= i < s.len() ==> is_digit(#[trigger] s[i])
}

/// The number denoted by a sequence of decimal digit characters.
pub open spec fn digits_val(s: Seq<char>) -> int
    decreases s.len(),
{
    if s.len() == 0 {
        0
    } else {
        digits_val(s.drop_last()) * 10 + (s.last() as int - 48)
    }
}

/// The first index at or after `from` where `c` occurs in `s`, or `s.len()`
/// when there is none.
pub open spec fn char_index_from(s: Seq<char>, c: char, from: int) -> int
    decreases s.len() - from,
{
    if from >= s.len() {
        s.len() as int
    } else if s[from] == c {
        from
    } else {
        char_index_from(s, c, from + 1)
    }
}

/// What a version string denotes: `Some` exactly for strings of the shape
/// digits `.` digits `.` digits, optionally followed by `-` and a nonempty
/// suffix, with each numeric component fitting in a `u64`.
pub open spec fn spec_parse_version(s: Seq<char>) -> Option<VersionView> {
    let d1 = char_index_from(s, '.', 0);
    let d2 = char_index_from(s, '.', d1 + 1);
    let h = char_index_from(s, '-', 0);
    let seg1 = s.subrange(0, d1);
    let seg2 = s.subrange(d1 + 1, d2);
    if d2 < s.len() && d2 < h && h <= s.len() && d2 + 1 < h && (h < s.len() ==> h + 1 < s.len())
        && 0 < d1 && d1 + 1 < d2 && all_digits(seg1) && all_digits(seg2) && all_digits(
        s.subrange(d2 + 1, h),
    ) && digits_val(seg1) <= u64::MAX && digits_val(seg2) <= u64::MAX && digits_val(
        s.subrange(d2 + 1, h),
    ) <= u64::MAX {
        Some(
            VersionView {
                major: digits_val(seg1),
                minor: digits_val(seg2),
                patch: digits_val(s.subrange(d2 + 1, h)),
                pre: if h < s.len() {
                    s.subrange(h + 1, s.len() as int)
                } else {
                    Seq::empty()
                },
            },
        )
    } else {
        None
    }
}

proof fn lemma_char_index_from(s: Seq<char>, c: char, from: int)
    requires
        0 <= from <= s.len(),
    ensures
        from <= char_index_from(s, c, from) <= s.len(),
        char_index_from(s, c, from) < s.len() ==> s[char_index_from(s, c, from)] == c,
        forall|k: int| from <= k < char_index_from(s, c, from) ==> s[k] != c,
    decreases s.len() - from,
{
    if from < s.len() && s[from] != c {
        lemma_char_index_from(s, c, from + 1);
    }
}

proof fn lemma_digits_val_nonneg(s: Seq<char>)
    requires
        all_digits(s),
    ensures
        digits_val(s) >= 0,
    decreases s.len(),
{
    if s.len() > 0 {
        assert(all_digits(s.drop_last()));
        lemma_digits_val_nonneg(s.drop_last());
    }
}

/// Appending digit characters never shrinks the denoted value.
proof fn lemma_digits_val_mono(s: Seq<char>, lo: int, mid: int, hi: int)
    requires
        0 <= lo <= mid <= hi <= s.len(),
    ensures
        all_digits(s.subrange(lo, hi)) ==> digits_val(s.subrange(lo, mid)) <= digits_val(
            s.subrange(lo, hi),
        ),
    decreases hi - mid,
{
    if mid < hi && all_digits(s.subrange(lo, hi)) {
        let shorter = s.subrange(lo, hi - 1);
        let longer = s.subrange(lo, hi);
        assert(longer.drop_last() =~= shorter);
        assert(all_digits(shorter)) by {
            assert(forall|i: int|
                0 <= i < shorter.len() ==> shorter[i] == #[trigger] longer[i] && is_digit(
                    longer[i],
                ));
        }
        lemma_digits_val_mono(s, lo, mid, hi - 1);
        lemma_digits_val_nonneg(shorter);
        assert(is_digit(longer.last()));
    }
}

/// The first index at or after `from` where `c` occurs, found by scanning.
fn find_char(s: &str, c: char, from: usize) -> (r: usize)
    requires
        from <= s@.len(),
    ensures
        r == char_index_from(s@, c, from as int),
        from <= r <= s@.len(),
        r < s@.len() ==> s@[r as int] == c,
        forall|k: int| from <= k < r ==> s@[k] != c,
{
    let n = s.unicode_len();
    let mut i: usize = from;
    while i < n
        invariant
            from <= i <= n,
            n == s@.len(),
            forall|k: int| from <= k < i ==> s@[k] != c,
        decreases n - i,
    {
        if s.get_char(i) == c {
            proof {
                lemma_char_index_from(s@, c, from as int);
            }
            return i;
        }
        i += 1;
    }
    proof {
        lemma_char_index_from(s@, c, from as int);
    }
    n
}

/// Parses `s[lo..hi]` as a decimal number; `None` when the range is empty,
/// holds a non-digit, or denotes a value above `u64::MAX`.
fn parse_digits(s: &str, lo: usize, hi: usize) -> (r: Option<u64>)
    requires
        lo <= hi <= s@.len(),
    ensures
        ({
            let seg = s@.subrange(lo as int, hi as int);
            match r {
                Some(v) => lo < hi && all_digits(seg) && v as int == digits_val(seg),
                None => !(lo < hi && all_digits(seg) && digits_val(seg) <= u64::MAX),
            }
        }),
{
    if lo >= hi {
        return None;
    }
    let ghost whole = s@.subrange(lo as int, hi as int);
    let mut acc: u64 = 0;
    let mut i: usize = lo;
    while i < hi
        invariant
            lo <= i <= hi <= s@.len(),
            whole == s@.subrange(lo as int, hi as int),
            all_digits(s@.subrange(lo as int, i as int)),
            acc as int == digits_val(s@.subrange(lo as int, i as int)),
        decreases hi - i,
    {
        let c = s.get_char(i);
        let cv = c as u32;
        if cv < 48 || cv > 57 {
            assert(!all_digits(whole)) by {
                assert(whole[i - lo] == s@[i as int]);
            }
            return None;
        }
        let d = (cv - 48) as u64;
        let wide: u128 = acc as u128 * 10 + d as u128;
        proof {
            let prefix = s@.subrange(lo as int, i as int);
            let extended = s@.subrange(lo as int, i as int + 1);
            assert(extended.drop_last() =~= prefix);
            assert(extended.last() == s@[i as int]);
            assert(all_digits(extended)) by {
                assert(forall|k: int|
                    0 <= k < prefix.len() ==> extended[k] == #[trigger] prefix[k]);
            }
            assert(wide as int == digits_val(extended));
        }
        if wide > u64::MAX as u128 {
            proof {
                lemma_digits_val_mono(s@, lo as int, i as int + 1, hi as int);
            }
            return None;
        }
        acc = wide as u64;
        i += 1;
    }
    assert(s@.subrange(lo as int, i as int) =~= whole);
    Some(acc)
}

/// Parses a dotted `major.minor.patch` version string with an optional
/// pre-release suffix after a hyphen; rejects everything else.
pub fn parse_version(s: &str) -> (r: Result<Version, SourceError>)
    ensures
        r matches Ok(v) ==> spec_parse_version(s@) == Some(v@),
        r matches Err(e) ==> spec_parse_version(s@) is None && e == SourceError::VersionParseError,
{
    let n = s.unicode_len();
    let d1 = find_char(s, '.', 0);
    if d1 >= n {
        return Err(SourceError::VersionParseError);
    }
    let d2 = find_char(s, '.', d1 + 1);
    if d2 >= n {
        return Err(SourceError::VersionParseError);
    }
    let h = find_char(s, '-', 0);
    if h <= d2 || h == d2 + 1 {
        return Err(SourceError::VersionParseError);
    }
    if d1 == 0 || d2 == d1 + 1 {
        return Err(SourceError::VersionParseError);
    }
    let major = match parse_digits(s, 0, d1) {
        Some(v) => v,
        None => {
            return Err(SourceError::VersionParseError);
        },
    };
    let minor = match parse_digits(s, d1 + 1, d2) {
        Some(v) => v,
        None => {
            return Err(SourceError::VersionParseError);
        },
    };
    let patch = match parse_digits(s, d2 + 1, h) {
        Some(v) => v,
        None => {
            return Err(SourceError::VersionParseError);
        },
    };
    if h < n {
        if h + 1 >= n {
            return Err(SourceError::VersionParseError);
        }
        let pre = s.substring_char(h + 1, n).to_owned();
        Ok(Version { major, minor, patch, pre })
    } else {
        Ok(Version { major, minor, patch, pre: String::new() })
    }
}

/// Lexicographic order on pre-release suffixes, by character code point.
pub open spec fn spec_pre_lt(a: Seq<char>, b: Seq<char>) -> bool
    decreases a.len(),
{
    if b.len() == 0 {
        false
    } else if a.len() == 0 {
        true
    } else if (a[0] as int) < (b[0] as int) {
        true
    } else if a[0] == b[0] {
        spec_pre_lt(a.subrange(1, a.len() as int), b.subrange(1, b.len() as int))
    } else {
        false
    }
}

/// Strict version order: major, then minor, then patch; a version with a
/// pre-release suffix precedes the same version without one, and two
/// suffixes compare lexicographically.
pub open spec fn spec_version_lt(a: VersionView, b: VersionView) -> bool {
    if a.major != b.major {
        a.major < b.major
    } else if a.minor != b.minor {
        a.minor < b.minor
    } else if a.patch != b.patch {
        a.patch < b.patch
    } else if a.pre.len() > 0 && b.pre.len() == 0 {
        true
    } else if a.pre.len() > 0 && b.pre.len() > 0 {
        spec_pre_lt(a.pre, b.pre)
    } else {
        false
    }
}

fn pre_lt(a: &str, b: &str) -> (r: bool)
    ensures
        r == spec_pre_lt(a@, b@),
    decreases a@.len(),
{
    let an = a.unicode_len();
    let bn = b.unicode_len();
    if bn == 0 {
        false
    } else if an == 0 {
        true
    } else {
        let ca = a.get_char(0);
        let cb = b.get_char(0);
        if (ca as u32) < (cb as u32) {
            true
        } else if ca == cb {
            pre_lt(a.substring_char(1, an), b.substring_char(1, bn))
        } else {
            false
        }
    }
}

/// Whether `remote` strictly exceeds `installed`.
pub fn version_newer(installed: &Version, remote: &Version) -> (r: bool)
    ensures
        r == spec_version_lt(installed@, remote@),
{
    if installed.major != remote.major {
        installed.major < remote.major
    } else if installed.minor != remote.minor {
        installed.minor < remote.minor
    } else if installed.patch != remote.patch {
        installed.patch < remote.patch
    } else {
        let an = installed.pre.as_str().unicode_len();
        let bn = remote.pre.as_str().unicode_len();
        if an > 0 && bn == 0 {
            true
        } else if an > 0 && bn > 0 {
            pre_lt(installed.pre.as_str(), remote.pre.as_str())
        } else {
            false
        }
    }
}

/// Parses both sides and decides whether `remote` strictly exceeds
/// `installed`; equal versions yield `false`, and a side that does not parse
/// yields `VersionParseError`.
pub fn has_newer(installed: &str, remote: &str) -> (r: Result<bool, SourceError>)
    ensures
        ({
            match (spec_parse_version(installed@), spec_parse_version(remote@)) {
                (Some(iv), Some(rv)) => r == Ok::<bool, SourceError>(spec_version_lt(iv, rv)),
                _ => r == Err::<bool, SourceError>(SourceError::VersionParseError),
            }
        }),
{
    let iv = match parse_version(installed) {
        Ok(v) => v,
        Err(e) => {
            return Err(e);
        },
    };
    let rv = match parse_version(remote) {
        Ok(v) => v,
        Err(e) => {
            return Err(e);
        },
    };
    Ok(version_newer(&iv, &rv))
}

} // verus!

