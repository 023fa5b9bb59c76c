use sdl_android_pack::metadata::app_id_or_default;
use sdl_android_pack::metadata::get_android_app_id;
use sdl_android_pack::metadata::get_toml_entry;
use sdl_android_pack::metadata::get_toml_string;
use sdl_android_pack::metadata::get_toml_string_vec;
use sdl_android_pack::metadata::metadata_path;
use sdl_android_pack::metadata::permissions_or_default;
use sdl_android_pack::metadata::title_or_default;

const METADATA: &str = "\
[package]\n\
name = \"game\"\n\
\n\
[package.metadata.android]\n\
package_name = \"com.example.app\"\n\
title = \"My Game\"\n\
permissions = [\"internet\", \"camera\"]\n\
";

#[test]
fn app_id_is_read_from_the_document() {
    assert_eq!(get_android_app_id(METADATA), "com.example.app");
}

#[test]
fn app_id_defaults_to_the_placeholder() {
    assert_eq!(get_android_app_id(""), "org.libsdl.app");
    assert_eq!(get_android_app_id("[package]\nname = \"game\"\n"), "org.libsdl.app");
    assert_eq!(app_id_or_default(None), "org.libsdl.app");
}

#[test]
fn title_defaults_to_untitled() {
    let title = get_toml_string("", &metadata_path("title"));
    assert_eq!(title_or_default(title), "Untitled");
    let title = get_toml_string(METADATA, &metadata_path("title"));
    assert_eq!(title_or_default(title), "My Game");
}

#[test]
fn permission_list_is_read_or_empty() {
    let perms = get_toml_string_vec(METADATA, &metadata_path("permissions"));
    assert_eq!(permissions_or_default(perms), vec!["internet", "camera"]);
    let perms = get_toml_string_vec("", &metadata_path("permissions"));
    assert_eq!(permissions_or_default(perms), Vec::<String>::new());
}

#[test]
fn non_string_list_elements_reject_the_list() {
    let doc = "[package.metadata.android]\npermissions = [\"internet\", 3]\n";
    assert!(get_toml_string_vec(doc, &metadata_path("permissions")).is_none());
}

#[test]
fn entry_lookup_sees_presence_and_absence() {
    assert!(get_toml_entry(METADATA, &metadata_path("title")).is_some());
    assert!(get_toml_entry(METADATA, &metadata_path("missing")).is_none());
    assert!(get_toml_entry(METADATA, &Vec::new()).is_some());
    assert!(get_toml_entry("not toml at all [", &Vec::new()).is_none());
}

#[test]
fn lookup_distinguishes_kinds_and_depths() {
    assert!(get_toml_string(METADATA, &metadata_path("permissions")).is_none());
    assert!(get_toml_string_vec(METADATA, &metadata_path("title")).is_none());
    assert!(get_toml_string(METADATA, &metadata_path("missing")).is_none());
    assert!(get_toml_string("not toml at all [", &metadata_path("title")).is_none());
}
