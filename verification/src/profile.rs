//! The two-way build profile: it selects the external build tool's task name,
//! the per-profile artifact directory, and whether the signing pipeline runs.

use vstd::prelude::*;

verus! {

/// Debug or Release; passed by value through the whole pipeline.
#[derive(Clone, Copy, PartialEq, Eq, Structural, Debug)]
pub enum BuildProfile {
    Debug,
    Release,
}

/// The build tool task name for the profile.
pub open spec fn gradle_task_seq(profile: BuildProfile) -> Seq<char> {
    if profile == BuildProfile::Debug {
        "assembleDebug"@
    } else {
        "assembleRelease"@
    }
}

/// The per-profile directory name under the compilation target's output tree.
pub open spec fn profile_dir_seq(profile: BuildProfile) -> Seq<char> {
    if profile == BuildProfile::Debug {
        "debug"@
    } else {
        "release"@
    }
}

/// The build tool task invoked for the profile.
pub fn gradle_task(profile: BuildProfile) -> (r: &'static str)
    ensures
        r@ == gradle_task_seq(profile),
{
    match profile {
        BuildProfile::Debug => "assembleDebug",
        BuildProfile::Release => "assembleRelease",
    }
}

/// The per-profile directory name under the compilation target's output tree.
pub fn profile_dir_name(profile: BuildProfile) -> (r: &'static str)
    ensures
        r@ == profile_dir_seq(profile),
{
    match profile {
        BuildProfile::Debug => "debug",
        BuildProfile::Release => "release",
    }
}

/// Signing runs exactly for release builds.
pub fn should_sign(profile: BuildProfile) -> (r: bool)
    ensures
        r == (profile == BuildProfile::Release),
{
    match profile {
        BuildProfile::Debug => false,
        BuildProfile::Release => true,
    }
}

} // verus!
