//! The numbers that the native solver reads: the flags for loading a
//! repository and the kinds of distribution.

use vstd::prelude::*;

verus! {

/// Reuse the repository's last data area instead of creating a new one.
pub const REPO_REUSE_REPODATA: i32 = 1;

/// Leave the added data as it is, without internalizing it.
pub const REPO_NO_INTERNALIZE: i32 = 2;

/// Store identifiers in the data area's own pool, not in the global one.
pub const REPO_LOCALPOOL: i32 = 4;

/// Add to the data area that is being loaded.
pub const REPO_USE_LOADING: i32 = 8;

/// Add the data to the solvables that exist instead of creating new ones.
pub const REPO_EXTEND_SOLVABLES: i32 = 16;

/// Put the pool's root directory before each path.
pub const REPO_USE_ROOTDIR: i32 = 32;

/// Give the solvables no location.
pub const REPO_NO_LOCATION: i32 = 64;

/// The flag word that goes to the native loader: the caller's flags, or
/// none of them where the caller chose none.
pub fn flag_bits(flags: Option<i32>) -> (bits: i32)
    ensures
        bits == match flags {
            Some(chosen) => chosen,
            None => 0,
        },
{
    match flags {
        Some(chosen) => chosen,
        None => 0,
    }
}

/// The kind of distribution whose packages a pool holds.
#[derive(Debug, Clone, Copy, PartialEq, Eq)]
pub enum DistType {
    Rpm,
    Deb,
    Arch,
    Haiku,
}

impl DistType {
    /// The number by which the native solver knows this kind.
    pub open spec fn spec_code(self) -> i32 {
        match self {
            DistType::Rpm => 0,
            DistType::Deb => 1,
            DistType::Arch => 2,
            DistType::Haiku => 3,
        }
    }

    /// The number by which the native solver knows this kind.
    #[verifier::when_used_as_spec(spec_code)]
    pub fn code(self) -> (code: i32)
        ensures
            code == self.spec_code(),
    {
        match self {
            DistType::Rpm => 0,
            DistType::Deb => 1,
            DistType::Arch => 2,
            DistType::Haiku => 3,
        }
    }
}

} // verus!
