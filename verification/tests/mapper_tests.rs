use sdl_android_pack::arch::get_target_android_name;

#[test]
fn mapper_covers_the_fixed_table() {
    assert_eq!(get_target_android_name("aarch64-linux-android"), Some("arm64-v8a"));
    assert_eq!(get_target_android_name("armv7-linux-androideabi"), Some("armeabi-v7a"));
    assert_eq!(get_target_android_name("i686-linux-android"), Some("x86"));
    assert_eq!(get_target_android_name("x86_64-linux-android"), Some("x86_64"));
}

#[test]
fn mapper_rejects_everything_else() {
    assert_eq!(get_target_android_name("riscv64gc-unknown-linux-gnu"), None);
    assert_eq!(get_target_android_name("aarch64-linux-androi"), None);
    assert_eq!(get_target_android_name("aarch64-linux-android "), None);
    assert_eq!(get_target_android_name(""), None);
}
