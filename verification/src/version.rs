//! Game client versions, as written in a replay's metadata
//! (`"major,minor,patch,build"`).
use vstd::prelude::*;

verus! {

/// A game client version. `build` is 0 when the build number is unknown.
#[derive(Debug, Clone, Copy, PartialEq, Eq, Structural)]
pub struct GameVersion {
    pub major: u32,
    pub minor: u32,
    pub patch: u32,
    pub build: u32,
}

/// `v` is the same release as `other` or a later one; the build number is
/// not compared.
pub open spec fn at_least(v: GameVersion, other: GameVersion) -> bool {
    if v.major != other.major {
        v.major > other.major
    } else if v.minor != other.minor {
        v.minor > other.minor
    } else {
        v.patch >= other.patch
    }
}

/// What wowsunpack's `Version::try_from_client_exe` makes of a client version
/// text, as `(major, minor, patch, build)` with 0 for an unknown build.
pub uninterp spec fn client_exe_version(text: Seq<char>) -> Option<(u32, u32, u32, u32)>;

/// Calls `wowsunpack::data::Version::try_from_client_exe`; its result, taken
/// field by field, is what `client_exe_version` names for the text.
#[verifier::external_body]
fn try_version_from_client_exe(text: &str) -> (r: Option<GameVersion>)
    ensures
        match client_exe_version(text@) {
            Some((a, b, c, d)) => r == Some(GameVersion { major: a, minor: b, patch: c, build: d }),
            None => r is None,
        },
{
    match wowsunpack::data::Version::try_from_client_exe(text) {
        Some(v) => Some(
            GameVersion {
                major: v.major,
                minor: v.minor,
                patch: v.patch,
                build: v.build_number().unwrap_or(0),
            },
        ),
        None => None,
    }
}

impl GameVersion {
    pub fn new(major: u32, minor: u32, patch: u32, build: u32) -> (r: GameVersion)
        ensures
            r == (GameVersion { major, minor, patch, build }),
    {
        GameVersion { major, minor, patch, build }
    }

    /// Parses the client version text of a replay (`"0,12,8,0"`); `None`
    /// when it is malformed.
    pub fn from_client_exe(text: &str) -> (r: Option<GameVersion>)
        ensures
            match client_exe_version(text@) {
                Some((a, b, c, d)) => r == Some(
                    GameVersion { major: a, minor: b, patch: c, build: d },
                ),
                None => r is None,
            },
    {
        try_version_from_client_exe(text)
    }

    /// Whether this version is `other` or a later release (major, then minor,
    /// then patch; the build number is ignored).
    pub fn is_at_least(&self, other: &GameVersion) -> (r: bool)
        ensures
            r == at_least(*self, *other),
    {
        if self.major > other.major {
            true
        } else if self.major < other.major {
            false
        } else if self.minor > other.minor {
            true
        } else if self.minor < other.minor {
            false
        } else {
            self.patch >= other.patch
        }
    }
}

/// Every version is at least itself, and the comparison is transitive and
/// total: any two versions are ordered one way or the other.
pub proof fn lemma_at_least_total_preorder(a: GameVersion, b: GameVersion, c: GameVersion)
    ensures
        at_least(a, a),
        at_least(a, b) && at_least(b, c) ==> at_least(a, c),
        at_least(a, b) || at_least(b, a),
{
}

/// Two versions that are each at least the other differ at most in build.
pub proof fn lemma_at_least_antisymmetric(a: GameVersion, b: GameVersion)
    requires
        at_least(a, b),
        at_least(b, a),
    ensures
        a.major == b.major && a.minor == b.minor && a.patch == b.patch,
{
}

/// The first client release whose `receive_CommonCMD` and `onBattleEnd`
/// calls use the packed argument layout.
pub open spec fn packed_commands_release() -> GameVersion {
    GameVersion { major: 0, minor: 12, patch: 8, build: 0 }
}

/// Whether a client sends voice lines as a packed blob and battle ends
/// without arguments (0.12.8 and later).
pub fn uses_packed_commands(v: &GameVersion) -> (r: bool)
    ensures
        r == at_least(*v, packed_commands_release()),
{
    v.is_at_least(&GameVersion::new(0, 12, 8, 0))
}

} // verus!
