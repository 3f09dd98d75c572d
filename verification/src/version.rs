//! Semantic versions: the three numeric components, the increment rules,
//! and the decimal rendering of a version as text.

use vstd::prelude::*;
use vstd::string::StringExecFns;

verus! {

/// A semantic version, reduced to its three numeric components.
///
/// A bump never carries pre-release or build metadata forward, so those
/// parts are dropped when a version string is parsed, and a bumped version
/// renders as the bare `major.minor.patch`.
#[derive(Clone, Copy, Debug, PartialEq, Eq, Structural)]
pub struct Version {
    pub major: u64,
    pub minor: u64,
    pub patch: u64,
}

/// Which component of a version a bump advances.
#[derive(Clone, Copy, Debug)]
pub enum Level {
    Major,
    Minor,
    Patch,
}

/// What a semantic-version parser yields on a given string: the three
/// numeric components, or nothing where the string is not a valid
/// semantic version.
pub uninterp spec fn semver_triple(s: Seq<char>) -> Option<(u64, u64, u64)>;

/// Relies on `semver::Version::parse`: the result depends on the string
/// alone; on success the parsed `major`, `minor` and `patch` fields are
/// handed back, and pre-release or build metadata is dropped.
#[verifier::external_body]
pub(crate) fn parse_semver(s: &str) -> (r: Option<(u64, u64, u64)>)
    ensures
        r == semver_triple(s@),
{
    match semver::Version::parse(s) {
        Ok(v) => Some((v.major, v.minor, v.patch)),
        Err(_) => None,
    }
}

/// Whether the component that a bump at `level` advances is below its
/// machine limit, so that the bump cannot overflow.
pub open spec fn can_bump(t: (u64, u64, u64), level: Level) -> bool {
    match level {
        Level::Major => t.0 < u64::MAX,
        Level::Minor => t.1 < u64::MAX,
        Level::Patch => t.2 < u64::MAX,
    }
}

/// The version that a bump at `level` yields, by the semantic-versioning
/// reset rules: a major bump clears minor and patch, a minor bump clears
/// patch, and a patch bump changes patch alone.
pub open spec fn bumped(t: (u64, u64, u64), level: Level) -> Version
    recommends
        can_bump(t, level),
{
    match level {
        Level::Major => Version { major: (t.0 + 1) as u64, minor: 0, patch: 0 },
        Level::Minor => Version { major: t.0, minor: (t.1 + 1) as u64, patch: 0 },
        Level::Patch => Version { major: t.0, minor: t.1, patch: (t.2 + 1) as u64 },
    }
}

impl Version {
    /// Advance the major component; minor and patch reset to zero.
    pub fn increment_major(&mut self)
        requires
            old(self).major < u64::MAX,
        ensures
            final(self).major == old(self).major + 1,
            final(self).minor == 0,
            final(self).patch == 0,
    {
        self.major = self.major + 1;
        self.minor = 0;
        self.patch = 0;
    }

    /// Advance the minor component; patch resets to zero, major is kept.
    pub fn increment_minor(&mut self)
        requires
            old(self).minor < u64::MAX,
        ensures
            final(self).major == old(self).major,
            final(self).minor == old(self).minor + 1,
            final(self).patch == 0,
    {
        self.minor = self.minor + 1;
        self.patch = 0;
    }

    /// Advance the patch component; major and minor are kept.
    pub fn increment_patch(&mut self)
        requires
            old(self).patch < u64::MAX,
        ensures
            final(self).major == old(self).major,
            final(self).minor == old(self).minor,
            final(self).patch == old(self).patch + 1,
    {
        self.patch = self.patch + 1;
    }

    /// Render the version as `major.minor.patch` in decimal.
    pub fn to_text(&self) -> (r: String)
        ensures
            r@ == version_seq(*self),
    {
        let mut s = u64_to_string(self.major);
        s = s.concat(".");
        s = s.concat(u64_to_string(self.minor).as_str());
        s = s.concat(".");
        s = s.concat(u64_to_string(self.patch).as_str());
        proof {
            reveal_strlit(".");
            assert(s@ =~= version_seq(*self));
        }
        s
    }
}

/// The decimal digit `d` (taken modulo ten) as a character.
pub open spec fn digit_char(d: nat) -> char {
    if d % 10 == 0 {
        '0'
    } else if d % 10 == 1 {
        '1'
    } else if d % 10 == 2 {
        '2'
    } else if d % 10 == 3 {
        '3'
    } else if d % 10 == 4 {
        '4'
    } else if d % 10 == 5 {
        '5'
    } else if d % 10 == 6 {
        '6'
    } else if d % 10 == 7 {
        '7'
    } else if d % 10 == 8 {
        '8'
    } else {
        '9'
    }
}

/// The decimal rendering of `n`, most significant digit first, with no
/// leading zeros (a single `0` for zero itself).
pub open spec fn dec_seq(n: nat) -> Seq<char>
    decreases n,
{
    if n < 10 {
        seq![digit_char(n)]
    } else {
        dec_seq((n / 10) as nat).push(digit_char((n % 10) as nat))
    }
}

/// The text form of a version: the three components in decimal, separated
/// by dots.
pub open spec fn version_seq(v: Version) -> Seq<char> {
    dec_seq(v.major as nat) + seq!['.'] + dec_seq(v.minor as nat) + seq!['.'] + dec_seq(
        v.patch as nat,
    )
}

/// One decimal digit as a fresh string.
fn digit_string(d: u64) -> (r: String)
    requires
        d < 10,
    ensures
        r@ == seq![digit_char(d as nat)],
{
    if d == 0 {
        proof {
            reveal_strlit("0");
        }
        let r = String::from_str("0");
        proof {
            assert(r@ =~= seq![digit_char(d as nat)]);
        }
        r
    } else if d == 1 {
        proof {
            reveal_strlit("1");
        }
        let r = String::from_str("1");
        proof {
            assert(r@ =~= seq![digit_char(d as nat)]);
        }
        r
    } else if d == 2 {
        proof {
            reveal_strlit("2");
        }
        let r = String::from_str("2");
        proof {
            assert(r@ =~= seq![digit_char(d as nat)]);
        }
        r
    } else if d == 3 {
        proof {
            reveal_strlit("3");
        }
        let r = String::from_str("3");
        proof {
            assert(r@ =~= seq![digit_char(d as nat)]);
        }
        r
    } else if d == 4 {
        proof {
            reveal_strlit("4");
        }
        let r = String::from_str("4");
        proof {
            assert(r@ =~= seq![digit_char(d as nat)]);
        }
        r
    } else if d == 5 {
        proof {
            reveal_strlit("5");
        }
        let r = String::from_str("5");
        proof {
            assert(r@ =~= seq![digit_char(d as nat)]);
        }
        r
    } else if d == 6 {
        proof {
            reveal_strlit("6");
        }
        let r = String::from_str("6");
        proof {
            assert(r@ =~= seq![digit_char(d as nat)]);
        }
        r
    } else if d == 7 {
        proof {
            reveal_strlit("7");
        }
        let r = String::from_str("7");
        proof {
            assert(r@ =~= seq![digit_char(d as nat)]);
        }
        r
    } else if d == 8 {
        proof {
            reveal_strlit("8");
        }
        let r = String::from_str("8");
        proof {
            assert(r@ =~= seq![digit_char(d as nat)]);
        }
        r
    } else {
        proof {
            reveal_strlit("9");
        }
        let r = String::from_str("9");
        proof {
            assert(r@ =~= seq![digit_char(d as nat)]);
        }
        r
    }
}

/// Render `n` in decimal.
pub fn u64_to_string(n: u64) -> (r: String)
    ensures
        r@ == dec_seq(n as nat),
    decreases n,
{
    if n < 10 {
        digit_string(n)
    } else {
        let prefix = u64_to_string(n / 10);
        let last = digit_string(n % 10);
        let r = prefix.concat(last.as_str());
        proof {
            assert(r@ =~= dec_seq(n as nat));
        }
        r
    }
}

} // verus!
