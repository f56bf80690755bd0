//! Reading the latest version of a package from `cargo search` output.
//!
//! The first line of the output reads `NAME = "VERSION"    # DESCRIPTION`;
//! the version is taken when the line starts with the package's name
//! followed by one white space, `=`, one white space, the version in quotes,
//! then white space and `#`.

use vstd::prelude::*;

use crate::text::{chars_of, first_line, first_line_of, is_whitespace, is_whitespace_char};
use crate::version::{semver_parse, SemVer, VersionView};

verus! {

/// Characters that a version may be made of: ASCII letters and digits, `.`,
/// `+` and `-`.
pub open spec fn version_char(c: char) -> bool {
    ||| '0' <= c <= '9'
    ||| 'a' <= c <= 'z'
    ||| 'A' <= c <= 'Z'
    ||| c == '.'
    ||| c == '+'
    ||| c == '-'
}

fn is_version_char(c: char) -> (r: bool)
    ensures
        r == version_char(c),
{
    ('0' <= c && c <= '9') || ('a' <= c && c <= 'z') || ('A' <= c && c <= 'Z') || c == '.' || c
        == '+' || c == '-'
}

/// Length of the run of version characters that starts at `from`.
pub open spec fn version_run(s: Seq<char>, from: int) -> nat
    decreases s.len() - from,
{
    if 0 <= from < s.len() && version_char(s[from]) {
        1 + version_run(s, from + 1)
    } else {
        0
    }
}

/// Length of the run of white space that starts at `from`.
pub open spec fn ws_run(s: Seq<char>, from: int) -> nat
    decreases s.len() - from,
{
    if 0 <= from < s.len() && is_whitespace(s[from]) {
        1 + ws_run(s, from + 1)
    } else {
        0
    }
}

/// The version captured by a match that starts at `i`, if one does.
pub open spec fn capture_at(line: Seq<char>, pkg: Seq<char>, i: int) -> Option<Seq<char>> {
    let j = i + pkg.len();
    let q = j + 4;
    let m = version_run(line, q);
    let k = q + m + 1;
    let w = ws_run(line, k);
    if 0 <= i && q <= line.len() && line.subrange(i, j) == pkg && is_whitespace(line[j])
        && line[j + 1] == '=' && is_whitespace(line[j + 2]) && line[j + 3] == '"' && m >= 1 && q
        + m < line.len() && line[q + m] == '"' && w >= 1 && k + w < line.len() && line[k + w]
        == '#' {
        Some(line.subrange(q, q + m))
    } else {
        None
    }
}

/// The version of `pkg` that a search line gives: the line must start with
/// the package's own entry.
pub open spec fn line_capture(line: Seq<char>, pkg: Seq<char>) -> Option<Seq<char>> {
    capture_at(line, pkg, 0)
}

fn version_run_end(s: &Vec<char>, from: usize) -> (r: usize)
    requires
        from <= s@.len(),
    ensures
        from <= r <= s@.len(),
        r - from == version_run(s@, from as int),
{
    let mut t = from;
    while t < s.len() && is_version_char(s[t])
        invariant
            from <= t <= s@.len(),
            version_run(s@, from as int) == (t - from) + version_run(s@, t as int),
        decreases s@.len() - t,
    {
        t = t + 1;
    }
    t
}

fn ws_run_end(s: &Vec<char>, from: usize) -> (r: usize)
    requires
        from <= s@.len(),
    ensures
        from <= r <= s@.len(),
        r - from == ws_run(s@, from as int),
{
    let mut t = from;
    while t < s.len() && is_whitespace_char(s[t])
        invariant
            from <= t <= s@.len(),
            ws_run(s@, from as int) == (t - from) + ws_run(s@, t as int),
        decreases s@.len() - t,
    {
        t = t + 1;
    }
    t
}

fn prefix_at(line: &Vec<char>, pkg: &Vec<char>, i: usize) -> (r: bool)
    requires
        i + pkg@.len() <= line@.len(),
    ensures
        r == (line@.subrange(i as int, i + pkg@.len()) == pkg@),
{
    let n = line.len();
    let mut t: usize = 0;
    while t < pkg.len() && line[i + t] == pkg[t]
        invariant
            t <= pkg@.len(),
            i + pkg@.len() <= line@.len(),
            n == line@.len(),
            forall|u: int| 0 <= u < t ==> line@[i + u] == pkg@[u],
        decreases pkg@.len() - t,
    {
        t = t + 1;
    }
    if t == pkg.len() {
        assert(line@.subrange(i as int, i + pkg@.len()) =~= pkg@);
        true
    } else {
        assert(line@.subrange(i as int, i + pkg@.len())[t as int] != pkg@[t as int]);
        false
    }
}

fn capture_at_exec(line: &Vec<char>, pkg: &Vec<char>, i: usize) -> (r: Option<(usize, usize)>)
    requires
        i <= line@.len(),
    ensures
        r matches Some((a, b)) ==> a <= b <= line@.len() && capture_at(line@, pkg@, i as int)
            == Some(line@.subrange(a as int, b as int)),
        r is None ==> capture_at(line@, pkg@, i as int) is None,
{
    let n = line.len();
    if pkg.len() > n || i > n - pkg.len() || n - pkg.len() - i < 4 {
        return None;
    }
    let j = i + pkg.len();
    if !prefix_at(line, pkg, i) {
        return None;
    }
    if !(is_whitespace_char(line[j]) && line[j + 1] == '=' && is_whitespace_char(line[j + 2])
        && line[j + 3] == '"') {
        return None;
    }
    let q = j + 4;
    let e = version_run_end(line, q);
    if e == q || e >= n || line[e] != '"' {
        return None;
    }
    let k = e + 1;
    let h = ws_run_end(line, k);
    if h == k || h >= n || line[h] != '#' {
        return None;
    }
    Some((q, e))
}

/// Why no version could be read from a search's output.
#[derive(Clone, Copy, Debug, PartialEq, Eq, Structural)]
pub enum SearchError {
    /// The output has no line at all.
    NoOutput,
    /// The first line holds no entry for the package.
    NoMatch,
    /// The entry's version is not a semantic version.
    InvalidVersion,
}

/// What a search's output tells of a package's latest version.
pub open spec fn search_result(pkg: Seq<char>, stdout: Seq<char>) -> Result<
    VersionView,
    SearchError,
> {
    match first_line(stdout) {
        None => Err(SearchError::NoOutput),
        Some(line) => match line_capture(line, pkg) {
            None => Err(SearchError::NoMatch),
            Some(text) => match semver_parse(text) {
                None => Err(SearchError::InvalidVersion),
                Some(v) => Ok(v),
            },
        },
    }
}

/// Reads the latest version of `pkg` from the output of
/// `cargo search --limit=1 -- pkg`.
pub fn parse_search_output(pkg: &str, stdout: &str) -> (r: Result<SemVer, SearchError>)
    ensures
        r matches Ok(v) ==> search_result(pkg@, stdout@) == Ok::<VersionView, SearchError>(v@),
        r matches Err(e) ==> search_result(pkg@, stdout@) == Err::<VersionView, SearchError>(e),
{
    let line = match first_line_of(stdout) {
        None => {
            return Err(SearchError::NoOutput);
        },
        Some(l) => l,
    };
    let chars = chars_of(line.as_str());
    let pkg_chars = chars_of(pkg);
    match capture_at_exec(&chars, &pkg_chars, 0) {
        Some((a, b)) => {
            let text = line.as_str().substring_char(a, b);
            match SemVer::parse(text) {
                None => Err(SearchError::InvalidVersion),
                Some(v) => Ok(v),
            }
        },
        None => Err(SearchError::NoMatch),
    }
}

} // verus!
