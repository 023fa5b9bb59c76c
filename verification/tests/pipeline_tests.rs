use sdl_android_pack::paths::path_join;
use sdl_android_pack::paths::workspace_paths;
use sdl_android_pack::placer::icon_placements;
use sdl_android_pack::placer::plan_artifact_placement;
use sdl_android_pack::profile::gradle_task;
use sdl_android_pack::profile::profile_dir_name;
use sdl_android_pack::profile::should_sign;
use sdl_android_pack::profile::BuildProfile;
use sdl_android_pack::project::apply_replacements;
use sdl_android_pack::project::main_activity_content;
use sdl_android_pack::project::main_activity_dir;
use sdl_android_pack::project::package_dir_path;
use sdl_android_pack::project::project_file_edits;
use sdl_android_pack::toolchain::ndk_build_args;
use sdl_android_pack::toolchain::sdl_staging_plan;

#[test]
fn paths_join_with_a_single_separator() {
    assert_eq!(path_join("a", "b/c"), "a/b/c");
    let w = workspace_paths(".");
    assert_eq!(w.project_root, "./target/android-project");
    assert_eq!(
        w.manifest_file,
        "./target/android-project/app/src/main/AndroidManifest.xml"
    );
    assert_eq!(
        w.release_dir,
        "./target/android-project/app/build/outputs/apk/release"
    );
}

#[test]
fn placement_covers_every_target_once() {
    let targets = vec![
        ("aarch64-linux-android".to_string(), "liba.so".to_string()),
        ("i686-linux-android".to_string(), "libb.so".to_string()),
    ];
    let plan = plan_artifact_placement(".", &targets).unwrap();
    assert_eq!(plan.len(), 2);
    assert_eq!(
        plan[0].dest_dir,
        "./target/android-project/app/src/main/jniLibs/arm64-v8a"
    );
    assert_eq!(
        plan[0].dest_file,
        "./target/android-project/app/src/main/jniLibs/arm64-v8a/libmain.so"
    );
    assert_eq!(plan[0].artifact, "liba.so");
    assert_eq!(
        plan[1].dest_dir,
        "./target/android-project/app/src/main/jniLibs/x86"
    );
    assert_ne!(plan[0].dest_dir, plan[1].dest_dir);
}

#[test]
fn placement_fails_fast_on_an_unknown_target() {
    let targets = vec![
        ("aarch64-linux-android".to_string(), "liba.so".to_string()),
        ("mips-unknown".to_string(), "libm.so".to_string()),
    ];
    assert_eq!(plan_artifact_placement(".", &targets), Err("mips-unknown".to_string()));
}

#[test]
fn icon_goes_to_all_five_density_buckets() {
    let p = icon_placements(".", "icon.png");
    assert_eq!(p.len(), 5);
    for (src, _) in &p {
        assert_eq!(src, "./icon.png");
    }
    let dests: Vec<&str> = p.iter().map(|x| x.1.as_str()).collect();
    assert_eq!(
        dests,
        vec![
            "./target/android-project/app/src/main/res/mipmap-mdpi/ic_launcher.png",
            "./target/android-project/app/src/main/res/mipmap-hdpi/ic_launcher.png",
            "./target/android-project/app/src/main/res/mipmap-xhdpi/ic_launcher.png",
            "./target/android-project/app/src/main/res/mipmap-xxhdpi/ic_launcher.png",
            "./target/android-project/app/src/main/res/mipmap-xxxhdpi/ic_launcher.png",
        ]
    );
}

#[test]
fn sdl_staging_lays_out_per_target_directories() {
    let targets = vec!["armv7-linux-androideabi".to_string()];
    let stages = sdl_staging_plan("/opt/sdl", &targets, BuildProfile::Release).unwrap();
    assert_eq!(stages.len(), 1);
    assert_eq!(stages[0].deps_dir, "target/armv7-linux-androideabi/release/deps");
    assert_eq!(stages[0].lib_src, "/opt/sdl/libs/armeabi-v7a/libSDL2.so");
    assert_eq!(
        stages[0].lib_dest,
        "target/armv7-linux-androideabi/release/deps/libSDL2.so"
    );
    assert_eq!(ndk_build_args(), vec![
        "NDK_PROJECT_PATH=.",
        "APP_BUILD_SCRIPT=./Android.mk",
        "APP_PLATFORM=android-19",
    ]);
}

#[test]
fn debug_scenario_substitutes_identity_and_skips_signing() {
    let manifest = "<manifest>\n<activity android:name=\"SDLActivity\"/>\n\
                    <meta package=\"org.libsdl.app\"/>\n</manifest>";
    let edits = project_file_edits("com.example.app", "My Game");
    assert_eq!(edits[0].file, "app/src/main/AndroidManifest.xml");
    let out = apply_replacements(manifest, &edits[0].replacements);
    assert!(out.contains("com.example.app"));
    assert!(!out.contains("org.libsdl.app"));
    assert!(out.contains("MainActivity"));

    let gradle = "applicationId \"org.libsdl.app\"";
    assert_eq!(edits[1].file, "app/build.gradle");
    assert_eq!(
        apply_replacements(gradle, &edits[1].replacements),
        "applicationId \"com.example.app\""
    );

    let strings = "<string name=\"app_name\">Game</string>";
    assert_eq!(edits[2].file, "app/src/main/res/values/strings.xml");
    assert_eq!(
        apply_replacements(strings, &edits[2].replacements),
        "<string name=\"app_name\">My Game</string>"
    );

    assert_eq!(package_dir_path("com.example.app"), "com/example/app");
    assert_eq!(
        main_activity_dir(".", "com.example.app"),
        "./target/android-project/app/src/main/java/com/example/app"
    );
    let class = main_activity_content("com.example.app");
    assert!(class.contains("package com.example.app;"));
    assert!(class.contains("public class MainActivity extends SDLActivity {"));
    assert!(!class.contains("$APP"));

    assert_eq!(gradle_task(BuildProfile::Debug), "assembleDebug");
    assert_eq!(profile_dir_name(BuildProfile::Debug), "debug");
    assert!(!should_sign(BuildProfile::Debug));
}

#[test]
fn release_profile_selects_release_task_and_signing() {
    assert_eq!(gradle_task(BuildProfile::Release), "assembleRelease");
    assert_eq!(profile_dir_name(BuildProfile::Release), "release");
    assert!(should_sign(BuildProfile::Release));
}
