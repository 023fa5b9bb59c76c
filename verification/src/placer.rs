//! The artifact placer: for every (target, artifact) pair, the architecture
//! directory that receives the compiled library under its fixed name, and the
//! five density buckets that receive the optional application icon. Planning
//! fails fast on the first unknown target, before any file is touched.

use vstd::prelude::*;

use crate::arch::get_target_android_name;
use crate::arch::lemma_target_android_name_injective;
use crate::arch::target_android_name_spec;
use crate::paths::path_join;
use crate::paths::path_join_seq;
use crate::text::lemma_concat_cancel_left;

verus! {

/// One planned library placement.
#[derive(Clone, PartialEq, Eq, Debug)]
pub struct ArtifactPlacement {
    /// The compilation target the artifact was built for.
    pub target: String,
    /// The per-architecture directory to create.
    pub dest_dir: String,
    /// The fixed-named library file inside it.
    pub dest_file: String,
    /// The compiled artifact to copy there.
    pub artifact: String,
}

/// The per-architecture library directory for an architecture name.
pub open spec fn jni_dir_spec(manifest_dir: Seq<char>, arch: Seq<char>) -> Seq<char> {
    path_join_seq(
        path_join_seq(manifest_dir, "target/android-project/app/src/main/jniLibs"@),
        arch,
    )
}

/// The placement of every target's artifact: each resolves to its
/// architecture directory and the fixed library filename; an unknown target
/// is a fatal configuration error reported before any placement, naming the
/// first offending target.
pub fn plan_artifact_placement(manifest_dir: &str, target_artifacts: &Vec<(String, String)>) -> (r:
    Result<Vec<ArtifactPlacement>, String>)
    ensures
        r is Ok <==> (forall|k: int|
            0 <= k < target_artifacts@.len() ==> target_android_name_spec(
                #[trigger] target_artifacts@[k].0@,
            ) is Some),
        r matches Ok(v) ==> v@.len() == target_artifacts@.len() && (forall|k: int|
            0 <= k < v@.len() ==> {
                let arch = target_android_name_spec(target_artifacts@[k].0@).unwrap();
                (#[trigger] v@[k]).target@ == target_artifacts@[k].0@ && v@[k].artifact@
                    == target_artifacts@[k].1@ && v@[k].dest_dir@ == jni_dir_spec(
                    manifest_dir@,
                    arch,
                ) && v@[k].dest_file@ == path_join_seq(
                    jni_dir_spec(manifest_dir@, arch),
                    "libmain.so"@,
                )
            }),
        r matches Ok(v) ==> (forall|k1: int, k2: int|
            0 <= k1 < k2 < v@.len() && target_artifacts@[k1].0@ != target_artifacts@[k2].0@ ==> (
            #[trigger] v@[k1]).dest_dir@ != (#[trigger] v@[k2]).dest_dir@),
        r matches Err(e) ==> exists|k: int|
            0 <= k < target_artifacts@.len() && target_android_name_spec(
                #[trigger] target_artifacts@[k].0@,
            ) is None && e@ == target_artifacts@[k].0@ && (forall|j: int|
                0 <= j < k ==> target_android_name_spec(#[trigger] target_artifacts@[j].0@) is Some),
{
    let mut out: Vec<ArtifactPlacement> = Vec::new();
    let mut i: usize = 0;
    while i < target_artifacts.len()
        invariant
            i <= target_artifacts@.len(),
            out@.len() == i,
            forall|k: int|
                0 <= k < i ==> target_android_name_spec(
                    #[trigger] target_artifacts@[k].0@,
                ) is Some,
            forall|k: int|
                0 <= k < i ==> {
                    let arch = target_android_name_spec(target_artifacts@[k].0@).unwrap();
                    (#[trigger] out@[k]).target@ == target_artifacts@[k].0@ && out@[k].artifact@
                        == target_artifacts@[k].1@ && out@[k].dest_dir@ == jni_dir_spec(
                        manifest_dir@,
                        arch,
                    ) && out@[k].dest_file@ == path_join_seq(
                        jni_dir_spec(manifest_dir@, arch),
                        "libmain.so"@,
                    )
                },
        decreases target_artifacts@.len() - i,
    {
        let pair = &target_artifacts[i];
        let arch = match get_target_android_name(pair.0.as_str()) {
            None => {
                return Err(pair.0.clone());
            },
            Some(a) => a,
        };
        let staging = path_join(manifest_dir, "target/android-project/app/src/main/jniLibs");
        let dest_dir = path_join(staging.as_str(), arch);
        let dest_file = path_join(dest_dir.as_str(), "libmain.so");
        out.push(
            ArtifactPlacement {
                target: pair.0.clone(),
                dest_dir,
                dest_file,
                artifact: pair.1.clone(),
            },
        );
        i += 1;
    }
    proof {
        assert forall|k1: int, k2: int|
            0 <= k1 < k2 < out@.len() && target_artifacts@[k1].0@
                != target_artifacts@[k2].0@ implies (#[trigger] out@[k1]).dest_dir@ != (
        #[trigger] out@[k2]).dest_dir@ by {
            lemma_target_android_name_injective(
                target_artifacts@[k1].0@,
                target_artifacts@[k2].0@,
            );
            let a1 = target_android_name_spec(target_artifacts@[k1].0@).unwrap();
            let a2 = target_android_name_spec(target_artifacts@[k2].0@).unwrap();
            let base = path_join_seq(
                manifest_dir@,
                "target/android-project/app/src/main/jniLibs"@,
            );
            if out@[k1].dest_dir@ == out@[k2].dest_dir@ {
                assert(base + "/"@ + a1 == base + "/"@ + a2);
                lemma_concat_cancel_left(base + "/"@, a1, a2);
            }
        }
    }
    Ok(out)
}

/// The five fixed density buckets that receive the application icon, each as
/// a (source, destination) pair; a failing copy of any one bucket is
/// cosmetic and must not abort the others.
pub fn icon_placements(manifest_dir: &str, icon_path: &str) -> (r: Vec<(String, String)>)
    ensures
        r@.len() == 5,
        forall|k: int| 0 <= k < 5 ==> (#[trigger] r@[k]).0@ == path_join_seq(manifest_dir@, icon_path@),
        r@[0].1@ == path_join_seq(
            manifest_dir@,
            "target/android-project/app/src/main/res/mipmap-mdpi/ic_launcher.png"@,
        ),
        r@[1].1@ == path_join_seq(
            manifest_dir@,
            "target/android-project/app/src/main/res/mipmap-hdpi/ic_launcher.png"@,
        ),
        r@[2].1@ == path_join_seq(
            manifest_dir@,
            "target/android-project/app/src/main/res/mipmap-xhdpi/ic_launcher.png"@,
        ),
        r@[3].1@ == path_join_seq(
            manifest_dir@,
            "target/android-project/app/src/main/res/mipmap-xxhdpi/ic_launcher.png"@,
        ),
        r@[4].1@ == path_join_seq(
            manifest_dir@,
            "target/android-project/app/src/main/res/mipmap-xxxhdpi/ic_launcher.png"@,
        ),
{
    let mut r: Vec<(String, String)> = Vec::new();
    r.push(
        (
            path_join(manifest_dir, icon_path),
            path_join(
                manifest_dir,
                "target/android-project/app/src/main/res/mipmap-mdpi/ic_launcher.png",
            ),
        ),
    );
    r.push(
        (
            path_join(manifest_dir, icon_path),
            path_join(
                manifest_dir,
                "target/android-project/app/src/main/res/mipmap-hdpi/ic_launcher.png",
            ),
        ),
    );
    r.push(
        (
            path_join(manifest_dir, icon_path),
            path_join(
                manifest_dir,
                "target/android-project/app/src/main/res/mipmap-xhdpi/ic_launcher.png",
            ),
        ),
    );
    r.push(
        (
            path_join(manifest_dir, icon_path),
            path_join(
                manifest_dir,
                "target/android-project/app/src/main/res/mipmap-xxhdpi/ic_launcher.png",
            ),
        ),
    );
    r.push(
        (
            path_join(manifest_dir, icon_path),
            path_join(
                manifest_dir,
                "target/android-project/app/src/main/res/mipmap-xxxhdpi/ic_launcher.png",
            ),
        ),
    );
    r
}

} // verus!
