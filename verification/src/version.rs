//! Semantic versions and version requirements, backed by the `semver` crate.

use vstd::prelude::*;

verus! {

/// The digit character for `d < 10`.
pub open spec fn digit_char(d: nat) -> char {
    if d == 0 {
        '0'
    } else if d == 1 {
        '1'
    } else if d == 2 {
        '2'
    } else if d == 3 {
        '3'
    } else if d == 4 {
        '4'
    } else if d == 5 {
        '5'
    } else if d == 6 {
        '6'
    } else if d == 7 {
        '7'
    } else if d == 8 {
        '8'
    } else {
        '9'
    }
}

/// Base-10 rendering of `n`, without leading zeros.
pub open spec fn decimal(n: nat) -> Seq<char>
    decreases n,
{
    if n < 10 {
        seq![digit_char(n)]
    } else {
        decimal(n / 10).push(digit_char(n % 10))
    }
}

fn digit_str(d: u64) -> (r: &'static str)
    requires
        d < 10,
    ensures
        r@ == seq![digit_char(d as nat)],
{
    proof {
        reveal_strlit("0");
        reveal_strlit("1");
        reveal_strlit("2");
        reveal_strlit("3");
        reveal_strlit("4");
        reveal_strlit("5");
        reveal_strlit("6");
        reveal_strlit("7");
        reveal_strlit("8");
        reveal_strlit("9");
    }
    if d == 0 {
        "0"
    } else if d == 1 {
        "1"
    } else if d == 2 {
        "2"
    } else if d == 3 {
        "3"
    } else if d == 4 {
        "4"
    } else if d == 5 {
        "5"
    } else if d == 6 {
        "6"
    } else if d == 7 {
        "7"
    } else if d == 8 {
        "8"
    } else {
        "9"
    }
}

/// Base-10 rendering of `n`.
pub fn decimal_string(n: u64) -> (r: String)
    ensures
        r@ == decimal(n as nat),
    decreases n,
{
    if n < 10 {
        String::from_str(digit_str(n))
    } else {
        let mut s = decimal_string(n / 10);
        s.append(digit_str(n % 10));
        s
    }
}

/// Plain contents of a semantic version.
pub struct VersionView {
    pub major: u64,
    pub minor: u64,
    pub patch: u64,
    pub pre: Seq<char>,
    pub build: Seq<char>,
}

/// What `semver::Version::parse` yields for a text, as plain values.
pub uninterp spec fn semver_parse(text: Seq<char>) -> Option<VersionView>;

/// Sign (-1, 0 or 1) of `semver`'s total order between two versions.
pub uninterp spec fn semver_order(a: VersionView, b: VersionView) -> int;

/// What `semver::VersionReq::parse` followed by its display yields for a text.
pub uninterp spec fn semver_req_text(text: Seq<char>) -> Option<Seq<char>>;

/// Sign of the lexicographic comparison of the numeric triples.
pub open spec fn triple_sign(a: VersionView, b: VersionView) -> int {
    if a.major != b.major {
        if a.major < b.major {
            -1
        } else {
            1
        }
    } else if a.minor != b.minor {
        if a.minor < b.minor {
            -1
        } else {
            1
        }
    } else if a.patch != b.patch {
        if a.patch < b.patch {
            -1
        } else {
            1
        }
    } else {
        0
    }
}

/// The textual form of a version: `MAJOR.MINOR.PATCH[-PRE][+BUILD]`.
pub open spec fn version_text(v: VersionView) -> Seq<char> {
    let core = decimal(v.major as nat) + seq!['.'] + decimal(v.minor as nat) + seq!['.'] + decimal(
        v.patch as nat,
    );
    let with_pre = if v.pre.len() == 0 {
        core
    } else {
        core + seq!['-'] + v.pre
    };
    if v.build.len() == 0 {
        with_pre
    } else {
        with_pre + seq!['+'] + v.build
    }
}

#[verifier::external_type_specification]
#[verifier::external_body]
pub struct ExSemverVersion(semver::Version);

/// A semantic version, as parsed by the `semver` crate.
///
/// Values are only made by [`SemVer::parse`], which fills the plain fields
/// from the parsed `semver::Version` kept alongside them.
#[derive(Debug, PartialEq, Eq)]
pub struct SemVer {
    major: u64,
    minor: u64,
    patch: u64,
    pre: String,
    build: String,
    parsed: semver::Version,
}

impl View for SemVer {
    type V = VersionView;

    closed spec fn view(&self) -> VersionView {
        VersionView {
            major: self.major,
            minor: self.minor,
            patch: self.patch,
            pre: self.pre@,
            build: self.build@,
        }
    }
}

/// Calls `semver::Version::parse` and copies the parts of the result.
///
/// Trusted: the result's parts are what `semver_parse` names for the text.
#[verifier::external_body]
fn semver_version_parse(s: &str) -> (r: Option<SemVer>)
    ensures
        r matches Some(v) ==> semver_parse(s@) == Some(v@),
        r is None ==> semver_parse(s@) is None,
{
    match semver::Version::parse(s) {
        Ok(v) => Some(
            SemVer {
                major: v.major,
                minor: v.minor,
                patch: v.patch,
                pre: v.pre.as_str().to_string(),
                build: v.build.as_str().to_string(),
                parsed: v,
            },
        ),
        Err(_) => None,
    }
}

/// Compares two versions with `semver::Version`'s `Ord` and returns its sign.
///
/// Trusted: the sign is `semver_order` of the two versions; as `semver`
/// documents, numeric triples decide first, then a version without
/// pre-release is above one with, and equal versions compare equal.
#[verifier::external_body]
fn semver_order_sign(a: &SemVer, b: &SemVer) -> (r: i8)
    ensures
        r == semver_order(a@, b@),
        -1 <= r <= 1,
        triple_sign(a@, b@) != 0 ==> r == triple_sign(a@, b@),
        triple_sign(a@, b@) == 0 && a@.pre.len() == 0 && b@.pre.len() > 0 ==> r == 1,
        triple_sign(a@, b@) == 0 && a@.pre.len() > 0 && b@.pre.len() == 0 ==> r == -1,
        a@ == b@ ==> r == 0,
{
    match a.parsed.cmp(&b.parsed) {
        std::cmp::Ordering::Less => -1,
        std::cmp::Ordering::Equal => 0,
        std::cmp::Ordering::Greater => 1,
    }
}

/// Calls `semver::VersionReq::parse` and renders the result with its
/// `Display`.
///
/// Trusted: the result is what `semver_req_text` names for the text.
#[verifier::external_body]
fn semver_req_parse(s: &str) -> (r: Option<String>)
    ensures
        r matches Some(t) ==> semver_req_text(s@) == Some(t@),
        r is None ==> semver_req_text(s@) is None,
{
    match semver::VersionReq::parse(s) {
        Ok(req) => Some(req.to_string()),
        Err(_) => None,
    }
}

impl SemVer {
    /// Parses a semantic version; `None` when `semver` rejects the text.
    pub fn parse(s: &str) -> (r: Option<SemVer>)
        ensures
            r matches Some(v) ==> semver_parse(s@) == Some(v@),
            r is None ==> semver_parse(s@) is None,
    {
        semver_version_parse(s)
    }

    /// Sign of the comparison with `other` in `semver`'s order.
    pub fn order(&self, other: &SemVer) -> (r: i8)
        ensures
            r == semver_order(self@, other@),
            -1 <= r <= 1,
            triple_sign(self@, other@) != 0 ==> r == triple_sign(self@, other@),
            triple_sign(self@, other@) == 0 && self@.pre.len() == 0 && other@.pre.len() > 0
                ==> r == 1,
            triple_sign(self@, other@) == 0 && self@.pre.len() > 0 && other@.pre.len() == 0
                ==> r == -1,
            self@ == other@ ==> r == 0,
    {
        semver_order_sign(self, other)
    }

    /// Whether `self` is strictly below `other`.
    pub fn lt(&self, other: &SemVer) -> (r: bool)
        ensures
            r == (semver_order(self@, other@) < 0),
    {
        self.order(other) < 0
    }

    pub fn major(&self) -> (r: u64)
        ensures
            r == self@.major,
    {
        self.major
    }

    pub fn minor(&self) -> (r: u64)
        ensures
            r == self@.minor,
    {
        self.minor
    }

    pub fn patch(&self) -> (r: u64)
        ensures
            r == self@.patch,
    {
        self.patch
    }

    pub fn pre(&self) -> (r: &str)
        ensures
            r@ == self@.pre,
    {
        self.pre.as_str()
    }

    pub fn build(&self) -> (r: &str)
        ensures
            r@ == self@.build,
    {
        self.build.as_str()
    }

    /// `MAJOR.MINOR.PATCH`, then `-PRE` and `+BUILD` when present.
    pub fn to_string(&self) -> (r: String)
        ensures
            r@ == version_text(self@),
    {
        let mut s = decimal_string(self.major);
        s.append(".");
        let minor = decimal_string(self.minor);
        s.append(minor.as_str());
        s.append(".");
        let patch = decimal_string(self.patch);
        s.append(patch.as_str());
        proof {
            reveal_strlit(".");
        }
        let ghost core = s@;
        assert(core =~= decimal(self.major as nat) + seq!['.'] + decimal(self.minor as nat)
            + seq!['.'] + decimal(self.patch as nat));
        if !self.pre.as_str().is_empty() {
            s.append("-");
            s.append(self.pre.as_str());
            proof {
                reveal_strlit("-");
            }
        }
        let ghost with_pre = s@;
        if !self.build.as_str().is_empty() {
            s.append("+");
            s.append(self.build.as_str());
            proof {
                reveal_strlit("+");
            }
        }
        s
    }
}

/// Comparison operator of a version requirement, as in `semver::Op`.
#[derive(Clone, Copy, Debug, PartialEq, Eq, Structural)]
pub enum Op {
    Exact,
    Greater,
    GreaterEq,
    Less,
    LessEq,
    Tilde,
    Caret,
    Wildcard,
}

/// The text that introduces an operator in a requirement.
pub open spec fn op_prefix(op: Op) -> Seq<char> {
    match op {
        Op::Exact => seq!['='],
        Op::Greater => seq!['>'],
        Op::GreaterEq => seq!['>', '='],
        Op::Less => seq!['<'],
        Op::LessEq => seq!['<', '='],
        Op::Tilde => seq!['~'],
        Op::Caret => seq!['^'],
        Op::Wildcard => Seq::empty(),
    }
}

/// The requirement that pins `v` with `op`: `OP MAJOR.MINOR.PATCH[-PRE]`.
///
/// Build metadata plays no part in a requirement, so it is left out.
pub open spec fn pinned_req_text(v: VersionView, op: Op) -> Seq<char> {
    let core = op_prefix(op) + decimal(v.major as nat) + seq!['.'] + decimal(v.minor as nat)
        + seq!['.'] + decimal(v.patch as nat);
    if v.pre.len() == 0 {
        core
    } else {
        core + seq!['-'] + v.pre
    }
}

fn op_str(op: Op) -> (r: &'static str)
    ensures
        r@ == op_prefix(op),
{
    proof {
        reveal_strlit("=");
        reveal_strlit(">");
        reveal_strlit(">=");
        reveal_strlit("<");
        reveal_strlit("<=");
        reveal_strlit("~");
        reveal_strlit("^");
        reveal_strlit("");
    }
    match op {
        Op::Exact => "=",
        Op::Greater => ">",
        Op::GreaterEq => ">=",
        Op::Less => "<",
        Op::LessEq => "<=",
        Op::Tilde => "~",
        Op::Caret => "^",
        Op::Wildcard => "",
    }
}

/// A version requirement, held as the text that `semver` displays for it.
#[derive(Clone, Debug, PartialEq, Eq)]
pub struct VersionReq {
    text: String,
}

impl View for VersionReq {
    type V = Seq<char>;

    closed spec fn view(&self) -> Seq<char> {
        self.text@
    }
}

impl VersionReq {
    /// Parses a requirement; `None` when `semver` rejects the text.
    pub fn parse(s: &str) -> (r: Option<VersionReq>)
        ensures
            r matches Some(q) ==> semver_req_text(s@) == Some(q@),
            r is None ==> semver_req_text(s@) is None,
    {
        match semver_req_parse(s) {
            Some(text) => Some(VersionReq { text }),
            None => None,
        }
    }

    /// The requirement that any version meets: `*`.
    pub fn star() -> (r: VersionReq)
        ensures
            r@ == "*"@,
    {
        proof {
            reveal_strlit("*");
        }
        VersionReq { text: String::from_str("*") }
    }

    /// The requirement's text.
    pub fn as_str(&self) -> (r: &str)
        ensures
            r@ == self@,
    {
        self.text.as_str()
    }

    /// The requirement's text, owned.
    pub fn to_string(&self) -> (r: String)
        ensures
            r@ == self@,
    {
        String::from_str(self.text.as_str())
    }
}

/// Converts the given version to a requirement with the given operator.
pub fn ver_to_req(ver: &SemVer, op: Op) -> (r: VersionReq)
    ensures
        r@ == pinned_req_text(ver@, op),
{
    let mut s = String::from_str(op_str(op));
    let major = decimal_string(ver.major());
    s.append(major.as_str());
    s.append(".");
    let minor = decimal_string(ver.minor());
    s.append(minor.as_str());
    s.append(".");
    let patch = decimal_string(ver.patch());
    s.append(patch.as_str());
    proof {
        reveal_strlit(".");
    }
    assert(s@ =~= op_prefix(op) + decimal(ver@.major as nat) + seq!['.'] + decimal(
        ver@.minor as nat,
    ) + seq!['.'] + decimal(ver@.patch as nat));
    if !ver.pre().is_empty() {
        s.append("-");
        s.append(ver.pre());
        proof {
            reveal_strlit("-");
        }
    }
    VersionReq { text: s }
}

} // verus!
