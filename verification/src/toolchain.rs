//! Staging of the native multimedia dependency: the fixed arguments of the
//! external native build tool, and where its produced library is copied for
//! each compilation target. An unknown target aborts the plan before any
//! copy.

use vstd::prelude::*;

use crate::arch::get_target_android_name;
use crate::arch::target_android_name_spec;
use crate::paths::path_join;
use crate::paths::path_join_seq;
use crate::profile::profile_dir_name;
use crate::profile::profile_dir_seq;
use crate::profile::BuildProfile;

verus! {

/// One target's staging: the dependency directory to create and the produced
/// library's source and destination.
#[derive(Clone, PartialEq, Eq, Debug)]
pub struct SdlStage {
    /// The per-target dependency directory to create.
    pub deps_dir: String,
    /// The library the native build tool produced for this architecture.
    pub lib_src: String,
    /// Where it is staged, under its fixed name.
    pub lib_dest: String,
}

/// The fixed arguments handed to the native build tool.
pub fn ndk_build_args() -> (r: Vec<String>)
    ensures
        r@.len() == 3,
        r@[0]@ == "NDK_PROJECT_PATH=."@,
        r@[1]@ == "APP_BUILD_SCRIPT=./Android.mk"@,
        r@[2]@ == "APP_PLATFORM=android-19"@,
{
    let mut r: Vec<String> = Vec::new();
    r.push(String::from_str("NDK_PROJECT_PATH=."));
    r.push(String::from_str("APP_BUILD_SCRIPT=./Android.mk"));
    r.push(String::from_str("APP_PLATFORM=android-19"));
    r
}

/// The expected location of the produced library for one architecture.
pub open spec fn sdl_lib_src_spec(sdl_root: Seq<char>, arch: Seq<char>) -> Seq<char> {
    path_join_seq(path_join_seq(path_join_seq(sdl_root, "libs"@), arch), "libSDL2.so"@)
}

/// The per-target dependency directory.
pub open spec fn deps_dir_spec(target: Seq<char>, profile: BuildProfile) -> Seq<char> {
    path_join_seq(path_join_seq(path_join_seq("target"@, target), profile_dir_seq(profile)), "deps"@)
}

/// Staging of the produced native library for every target: each target's
/// dependency directory and the copy from the build output into it. The
/// first unknown target is a fatal configuration error, named in the error.
pub fn sdl_staging_plan(sdl_root: &str, targets: &Vec<String>, profile: BuildProfile) -> (r: Result<
    Vec<SdlStage>,
    String,
>)
    ensures
        r is Ok <==> (forall|k: int|
            0 <= k < targets@.len() ==> target_android_name_spec(#[trigger] targets@[k]@) is Some),
        r matches Ok(v) ==> v@.len() == targets@.len() && (forall|k: int|
            0 <= k < v@.len() ==> {
                let arch = target_android_name_spec(targets@[k]@).unwrap();
                (#[trigger] v@[k]).deps_dir@ == deps_dir_spec(targets@[k]@, profile)
                    && v@[k].lib_src@ == sdl_lib_src_spec(sdl_root@, arch) && v@[k].lib_dest@
                    == path_join_seq(deps_dir_spec(targets@[k]@, profile), "libSDL2.so"@)
            }),
        r matches Err(e) ==> exists|k: int|
            0 <= k < targets@.len() && target_android_name_spec(#[trigger] targets@[k]@) is None
                && e@ == targets@[k]@ && (forall|j: int|
                0 <= j < k ==> target_android_name_spec(#[trigger] targets@[j]@) is Some),
{
    let mut out: Vec<SdlStage> = Vec::new();
    let mut i: usize = 0;
    while i < targets.len()
        invariant
            i <= targets@.len(),
            out@.len() == i,
            forall|k: int|
                0 <= k < i ==> target_android_name_spec(#[trigger] targets@[k]@) is Some,
            forall|k: int|
                0 <= k < i ==> {
                    let arch = target_android_name_spec(targets@[k]@).unwrap();
                    (#[trigger] out@[k]).deps_dir@ == deps_dir_spec(targets@[k]@, profile)
                        && out@[k].lib_src@ == sdl_lib_src_spec(sdl_root@, arch) && out@[k].lib_dest@
                        == path_join_seq(deps_dir_spec(targets@[k]@, profile), "libSDL2.so"@)
                },
        decreases targets@.len() - i,
    {
        let target = &targets[i];
        let arch = match get_target_android_name(target.as_str()) {
            None => {
                return Err(target.clone());
            },
            Some(a) => a,
        };
        let deps_dir = path_join(
            path_join(
                path_join("target", target.as_str()).as_str(),
                profile_dir_name(profile),
            ).as_str(),
            "deps",
        );
        let lib_src = path_join(
            path_join(path_join(sdl_root, "libs").as_str(), arch).as_str(),
            "libSDL2.so",
        );
        let lib_dest = path_join(deps_dir.as_str(), "libSDL2.so");
        out.push(SdlStage { deps_dir, lib_src, lib_dest });
        i += 1;
    }
    Ok(out)
}

} // verus!
