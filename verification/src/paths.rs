//! The fixed filesystem layout of the project workspace, relative to the
//! directory of the metadata file, and plain path joining.

use vstd::prelude::*;
use vstd::string::StringExecFns;

verus! {

/// `base` and `rest` joined by the path separator.
pub open spec fn path_join_seq(base: Seq<char>, rest: Seq<char>) -> Seq<char> {
    base + "/"@ + rest
}

/// `base` and `rest` joined by the path separator.
pub fn path_join(base: &str, rest: &str) -> (r: String)
    ensures
        r@ == path_join_seq(base@, rest@),
{
    let mut r = String::from_str(base);
    r.append("/");
    r.append(rest);
    r
}

/// Every fixed location of the templated workspace, rooted under the
/// metadata file's directory.
#[derive(Clone, PartialEq, Eq, Debug)]
pub struct WorkspacePaths {
    /// Where the project template tree is copied to.
    pub template_dest: String,
    /// Root of the templated project.
    pub project_root: String,
    /// The platform manifest to be rewritten.
    pub manifest_file: String,
    /// The build configuration file to be rewritten.
    pub build_gradle: String,
    /// The display-strings resource file to be rewritten.
    pub strings_xml: String,
    /// Root of the entry-point source tree.
    pub java_root: String,
    /// The template's bundled native sources, removed after templating.
    pub jni_src: String,
    /// The dependency-linking slot for the native library source tree.
    pub sdl_link: String,
    /// Root of the per-architecture library staging area.
    pub jni_libs_root: String,
    /// Where the release build leaves its packages.
    pub release_dir: String,
}

/// The fixed workspace layout under `manifest_dir`.
pub fn workspace_paths(manifest_dir: &str) -> (r: WorkspacePaths)
    ensures
        r.template_dest@ == path_join_seq(manifest_dir@, "target"@),
        r.project_root@ == path_join_seq(manifest_dir@, "target/android-project"@),
        r.manifest_file@ == path_join_seq(
            manifest_dir@,
            "target/android-project/app/src/main/AndroidManifest.xml"@,
        ),
        r.build_gradle@ == path_join_seq(manifest_dir@, "target/android-project/app/build.gradle"@),
        r.strings_xml@ == path_join_seq(
            manifest_dir@,
            "target/android-project/app/src/main/res/values/strings.xml"@,
        ),
        r.java_root@ == path_join_seq(manifest_dir@, "target/android-project/app/src/main/java"@),
        r.jni_src@ == path_join_seq(manifest_dir@, "target/android-project/app/jni/src"@),
        r.sdl_link@ == path_join_seq(manifest_dir@, "target/android-project/app/jni/SDL"@),
        r.jni_libs_root@ == path_join_seq(
            manifest_dir@,
            "target/android-project/app/src/main/jniLibs"@,
        ),
        r.release_dir@ == path_join_seq(
            manifest_dir@,
            "target/android-project/app/build/outputs/apk/release"@,
        ),
{
    WorkspacePaths {
        template_dest: path_join(manifest_dir, "target"),
        project_root: path_join(manifest_dir, "target/android-project"),
        manifest_file: path_join(
            manifest_dir,
            "target/android-project/app/src/main/AndroidManifest.xml",
        ),
        build_gradle: path_join(manifest_dir, "target/android-project/app/build.gradle"),
        strings_xml: path_join(
            manifest_dir,
            "target/android-project/app/src/main/res/values/strings.xml",
        ),
        java_root: path_join(manifest_dir, "target/android-project/app/src/main/java"),
        jni_src: path_join(manifest_dir, "target/android-project/app/jni/src"),
        sdl_link: path_join(manifest_dir, "target/android-project/app/jni/SDL"),
        jni_libs_root: path_join(manifest_dir, "target/android-project/app/src/main/jniLibs"),
        release_dir: path_join(
            manifest_dir,
            "target/android-project/app/build/outputs/apk/release",
        ),
    }
}

} // verus!
