//! The version of the protocol, and which versions of it can talk to each other.
use vstd::prelude::*;

verus! {

/// A semantic version: `major.minor.patch`, with the text of its pre-release and of its build
/// metadata (each empty when the version has none).
pub struct SemVer {
    pub major: u64,
    pub minor: u64,
    pub patch: u64,
    pub pre: String,
    pub build: String,
}

/// Major number of the protocol version, the one of this crate.
pub const PROTOCOL_VERSION_MAJOR: u64 = 0;

/// Minor number of the protocol version, the one of this crate.
pub const PROTOCOL_VERSION_MINOR: u64 = 1;

/// Patch number of the protocol version, the one of this crate.
pub const PROTOCOL_VERSION_PATCH: u64 = 0;

/// How a comparator compares a version with its own numbers.
#[derive(Copy, Clone, Debug, PartialEq, Eq, Structural)]
pub enum CompareOp {
    /// At least the comparator's version.
    GreaterEq,
    /// Below the comparator's version.
    Less,
}

/// A version of release (no pre-release) equals the numbers given; a number left out matches any.
pub open spec fn release_matches_exact(
    v: (u64, u64, u64),
    major: u64,
    minor: Option<u64>,
    patch: Option<u64>,
) -> bool {
    &&& v.0 == major
    &&& (minor matches Some(m) ==> v.1 == m)
    &&& (patch matches Some(p) ==> v.2 == p)
}

/// A version of release is above the numbers given, in the first number that differs; a number
/// left out ends the comparison with "not above".
pub open spec fn release_above(
    v: (u64, u64, u64),
    major: u64,
    minor: Option<u64>,
    patch: Option<u64>,
) -> bool {
    if v.0 != major {
        v.0 > major
    } else {
        match minor {
            None => false,
            Some(m) => if v.1 != m {
                v.1 > m
            } else {
                match patch {
                    None => false,
                    Some(p) => v.2 > p,
                }
            },
        }
    }
}

/// A version of release is below the numbers given, in the first number that differs; a number
/// left out ends the comparison with "not below".
pub open spec fn release_below(
    v: (u64, u64, u64),
    major: u64,
    minor: Option<u64>,
    patch: Option<u64>,
) -> bool {
    if v.0 != major {
        v.0 < major
    } else {
        match minor {
            None => false,
            Some(m) => if v.1 != m {
                v.1 < m
            } else {
                match patch {
                    None => false,
                    Some(p) => v.2 < p,
                }
            },
        }
    }
}

/// Whether a comparator without pre-release matches a version: never when the version has a
/// pre-release, else by its operation on the numbers.
pub open spec fn comparator_matches_spec(
    op: CompareOp,
    major: u64,
    minor: Option<u64>,
    patch: Option<u64>,
    v: (u64, u64, u64),
    pre: Seq<char>,
) -> bool {
    pre.len() == 0 && match op {
        CompareOp::GreaterEq => release_matches_exact(v, major, minor, patch) || release_above(
            v,
            major,
            minor,
            patch,
        ),
        CompareOp::Less => release_below(v, major, minor, patch),
    }
}

/// `semver::Comparator::matches`, for a comparator with the given operation and numbers and no
/// pre-release. The contract claims what the crate's source does for these two operations: a
/// version with a pre-release matches no such comparator (a text that `semver` does not accept as
/// a pre-release is counted as one, and matches nothing either); otherwise `>=` matches the
/// version equal to the numbers given or above them, and `<` the one below them.
#[verifier::external_body]
fn comparator_matches(
    op: CompareOp,
    major: u64,
    minor: Option<u64>,
    patch: Option<u64>,
    version: &SemVer,
) -> (r: bool)
    ensures
        r == comparator_matches_spec(
            op,
            major,
            minor,
            patch,
            (version.major, version.minor, version.patch),
            version.pre@,
        ),
{
    let op = match op {
        CompareOp::GreaterEq => semver::Op::GreaterEq,
        CompareOp::Less => semver::Op::Less,
    };
    let cmp = semver::Comparator { op, major, minor, patch, pre: semver::Prerelease::EMPTY };
    let (v_major, v_minor, v_patch) = (version.major, version.minor, version.patch);
    match semver::Prerelease::new(&version.pre) {
        Ok(pre) => cmp.matches(&semver::Version { major: v_major, minor: v_minor, patch: v_patch,
            pre, build: semver::BuildMetadata::EMPTY }),
        Err(_) => false,
    }
}

/// The version of the protocol spoken here.
pub fn protocol_version() -> (r: SemVer)
    ensures
        r.major == PROTOCOL_VERSION_MAJOR,
        r.minor == PROTOCOL_VERSION_MINOR,
        r.patch == PROTOCOL_VERSION_PATCH,
        r.pre@.len() == 0,
        r.build@.len() == 0,
{
    SemVer {
        major: PROTOCOL_VERSION_MAJOR,
        minor: PROTOCOL_VERSION_MINOR,
        patch: PROTOCOL_VERSION_PATCH,
        pre: String::new(),
        build: String::new(),
    }
}

/// The upper bound of the compatible versions: the next minor version while the major number is
/// 0, else the next major version.
pub open spec fn upper_bound() -> (u64, Option<u64>) {
    if PROTOCOL_VERSION_MAJOR > 0 {
        ((PROTOCOL_VERSION_MAJOR + 1) as u64, None)
    } else {
        (PROTOCOL_VERSION_MAJOR, Some((PROTOCOL_VERSION_MINOR + 1) as u64))
    }
}

/// Whether a version can talk with this protocol: it is at least the protocol version and below
/// the upper bound, and not a pre-release.
pub open spec fn compatible(v: (u64, u64, u64), pre: Seq<char>) -> bool {
    comparator_matches_spec(
        CompareOp::GreaterEq,
        PROTOCOL_VERSION_MAJOR,
        Some(PROTOCOL_VERSION_MINOR),
        Some(PROTOCOL_VERSION_PATCH),
        v,
        pre,
    ) && comparator_matches_spec(CompareOp::Less, upper_bound().0, upper_bound().1, None, v, pre)
}

/// Returns true if the provided version is compatible with the protocol version.
pub fn is_compatible_with(version: &SemVer) -> (r: bool)
    ensures
        r == compatible((version.major, version.minor, version.patch), version.pre@),
{
    let (upper_major, upper_minor) = if PROTOCOL_VERSION_MAJOR > 0 {
        (PROTOCOL_VERSION_MAJOR + 1, None)
    } else {
        (PROTOCOL_VERSION_MAJOR, Some(PROTOCOL_VERSION_MINOR + 1))
    };
    comparator_matches(
        CompareOp::GreaterEq,
        PROTOCOL_VERSION_MAJOR,
        Some(PROTOCOL_VERSION_MINOR),
        Some(PROTOCOL_VERSION_PATCH),
        version,
    ) && comparator_matches(CompareOp::Less, upper_major, upper_minor, None, version)
}

/// The versions compatible with the protocol are exactly its patch releases from its own on: the
/// same major and minor numbers, a patch number at least its own, and no pre-release. So the
/// protocol version itself is compatible, a later patch is too, and a later major or minor version
/// is not.
pub proof fn lemma_compatible_versions(v: (u64, u64, u64), pre: Seq<char>)
    ensures
        compatible(v, pre) <==> (pre.len() == 0 && v.0 == PROTOCOL_VERSION_MAJOR && v.1
            == PROTOCOL_VERSION_MINOR && v.2 >= PROTOCOL_VERSION_PATCH),
{
}

} // verus!
