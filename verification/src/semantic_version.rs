//! A semantic version, its canonical text and the bump rules.

use vstd::prelude::*;
use vstd::string::*;

use crate::bump_type::BumpType;

verus! {

/// A semantic version: three numbers, and the pre-release and build tags,
/// each empty where the version has none.
#[derive(Debug, Clone, PartialEq, Eq)]
pub struct SemanticVersion {
    pub major: u64,
    pub minor: u64,
    pub patch: u64,
    pub pre: String,
    pub build: String,
}

/// The mathematical value of a [`SemanticVersion`].
pub struct VersionView {
    pub major: nat,
    pub minor: nat,
    pub patch: nat,
    pub pre: Seq<char>,
    pub build: Seq<char>,
}

impl View for SemanticVersion {
    type V = VersionView;

    open spec fn view(&self) -> VersionView {
        VersionView {
            major: self.major as nat,
            minor: self.minor as nat,
            patch: self.patch as nat,
            pre: self.pre@,
            build: self.build@,
        }
    }
}

/// The character that stands for the digit `d`.
pub open spec fn digit_char(d: nat) -> char
    recommends
        d < 10,
{
    if d == 0 {
        '0'
    } else if d == 1 {
        '1'
    } else if d == 2 {
        '2'
    } else if d == 3 {
        '3'
    } else if d == 4 {
        '4'
    } else if d == 5 {
        '5'
    } else if d == 6 {
        '6'
    } else if d == 7 {
        '7'
    } else if d == 8 {
        '8'
    } else {
        '9'
    }
}

/// `n` in decimal, without leading zeros.
pub open spec fn decimal(n: nat) -> Seq<char>
    decreases n,
{
    if n < 10 {
        seq![digit_char(n)]
    } else {
        decimal(n / 10).push(digit_char(n % 10))
    }
}

/// A tag behind its mark, or nothing where the tag is empty.
pub open spec fn tagged(mark: char, tag: Seq<char>) -> Seq<char> {
    if tag.len() > 0 {
        seq![mark] + tag
    } else {
        Seq::empty()
    }
}

/// The one textual form of a version: `MAJOR.MINOR.PATCH[-PRE][+BUILD]`.
pub open spec fn canonical_text(v: VersionView) -> Seq<char> {
    decimal(v.major) + seq!['.'] + decimal(v.minor) + seq!['.'] + decimal(v.patch) + tagged(
        '-',
        v.pre,
    ) + tagged('+', v.build)
}

/// The version that follows `v` under the directive `change`: the named
/// component grows by one, the components below it become zero, and both
/// tags are cleared.
pub open spec fn bumped(v: VersionView, change: BumpType) -> VersionView {
    match change {
        BumpType::MAJOR => VersionView {
            major: v.major + 1,
            minor: 0,
            patch: 0,
            pre: Seq::empty(),
            build: Seq::empty(),
        },
        BumpType::MINOR => VersionView {
            major: v.major,
            minor: v.minor + 1,
            patch: 0,
            pre: Seq::empty(),
            build: Seq::empty(),
        },
        BumpType::PATCH => VersionView {
            major: v.major,
            minor: v.minor,
            patch: v.patch + 1,
            pre: Seq::empty(),
            build: Seq::empty(),
        },
    }
}

/// The component of `v` that `change` increases.
pub open spec fn component(v: VersionView, change: BumpType) -> nat {
    match change {
        BumpType::MAJOR => v.major,
        BumpType::MINOR => v.minor,
        BumpType::PATCH => v.patch,
    }
}

/// Whether `a` comes before `b` when the three numbers are compared in
/// order.
pub open spec fn precedes(a: VersionView, b: VersionView) -> bool {
    ||| a.major < b.major
    ||| a.major == b.major && a.minor < b.minor
    ||| a.major == b.major && a.minor == b.minor && a.patch < b.patch
}

/// A bump increases the named component by exactly one, resets every
/// component below it to zero, keeps every component above it, clears both
/// tags, and so yields a version that comes strictly after the old one.
pub proof fn lemma_bump_increases(v: VersionView, change: BumpType)
    ensures
        component(bumped(v, change), change) == component(v, change) + 1,
        change == BumpType::MAJOR ==> bumped(v, change).minor == 0 && bumped(v, change).patch == 0,
        change == BumpType::MINOR ==> bumped(v, change).major == v.major && bumped(
            v,
            change,
        ).patch == 0,
        change == BumpType::PATCH ==> bumped(v, change).major == v.major && bumped(
            v,
            change,
        ).minor == v.minor,
        bumped(v, change).pre.len() == 0,
        bumped(v, change).build.len() == 0,
        precedes(v, bumped(v, change)),
{
}

/// The digit `d` as text.
fn digit_text(d: u64) -> (r: &'static str)
    requires
        d < 10,
    ensures
        r@ == seq![digit_char(d as nat)],
{
    proof {
        reveal_strlit("0");
        reveal_strlit("1");
        reveal_strlit("2");
        reveal_strlit("3");
        reveal_strlit("4");
        reveal_strlit("5");
        reveal_strlit("6");
        reveal_strlit("7");
        reveal_strlit("8");
        reveal_strlit("9");
    }
    let r: &'static str = if d == 0 {
        "0"
    } else if d == 1 {
        "1"
    } else if d == 2 {
        "2"
    } else if d == 3 {
        "3"
    } else if d == 4 {
        "4"
    } else if d == 5 {
        "5"
    } else if d == 6 {
        "6"
    } else if d == 7 {
        "7"
    } else if d == 8 {
        "8"
    } else {
        "9"
    };
    assert(r@ =~= seq![digit_char(d as nat)]);
    r
}

/// `n` in decimal, without leading zeros.
pub fn decimal_string(n: u64) -> (r: String)
    ensures
        r@ == decimal(n as nat),
    decreases n,
{
    if n < 10 {
        String::from_str(digit_text(n))
    } else {
        let mut text: String = decimal_string(n / 10);
        text.append(digit_text(n % 10));
        assert(text@ =~= decimal(n as nat));
        text
    }
}

impl SemanticVersion {
    /// A version without tags.
    pub fn new(major: u64, minor: u64, patch: u64) -> (v: SemanticVersion)
        ensures
            v@ == (VersionView {
                major: major as nat,
                minor: minor as nat,
                patch: patch as nat,
                pre: Seq::empty(),
                build: Seq::empty(),
            }),
    {
        SemanticVersion { major, minor, patch, pre: String::new(), build: String::new() }
    }

    /// The canonical text of this version.
    pub fn to_string(&self) -> (r: String)
        ensures
            r@ == canonical_text(self@),
    {
        proof {
            reveal_strlit(".");
            reveal_strlit("-");
            reveal_strlit("+");
            assert("."@ =~= seq!['.']);
            assert("-"@ =~= seq!['-']);
            assert("+"@ =~= seq!['+']);
        }
        let mut text: String = decimal_string(self.major);
        text.append(".");
        text.append(decimal_string(self.minor).as_str());
        text.append(".");
        text.append(decimal_string(self.patch).as_str());
        if !self.pre.as_str().is_empty() {
            text.append("-");
            text.append(self.pre.as_str());
        }
        assert(text@ =~= decimal(self@.major) + seq!['.'] + decimal(self@.minor) + seq!['.']
            + decimal(self@.patch) + tagged('-', self@.pre));
        if !self.build.as_str().is_empty() {
            text.append("+");
            text.append(self.build.as_str());
        }
        assert(text@ =~= canonical_text(self@));
        text
    }
}

} // verus!
