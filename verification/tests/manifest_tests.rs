use sdl_android_pack::manifest::add_uses_permission_entry;
use sdl_android_pack::manifest::insert_text;
use sdl_android_pack::manifest::manifest_content_span;
use sdl_android_pack::manifest::manifest_tag_content;
use sdl_android_pack::manifest::permission_entry;

#[test]
fn manifest_regex() {
    let mut manifest_file_content =
        String::from("<some header>\n<manifest option1\n\toption2>\n\t<hello world>\n</manifest>\n");
    let content = manifest_tag_content(&manifest_file_content).unwrap();
    assert_eq!(content.as_str(), "\n\t<hello world>\n");

    let (_, end) = manifest_content_span(&manifest_file_content).unwrap();
    manifest_file_content = insert_text(&manifest_file_content, end, "\t<permission>\n");

    let content = manifest_tag_content(&manifest_file_content).unwrap();
    assert_eq!(content.as_str(), "\n\t<hello world>\n\t<permission>\n");
}

#[test]
fn span_offsets_are_exact() {
    let m = "<manifest a\n b>\nX\n</manifest>";
    let (start, end) = manifest_content_span(m).unwrap();
    assert_eq!(&m[start..end], "\nX\n");
}

#[test]
fn span_absent_when_no_root_element() {
    assert!(manifest_content_span("<html></html>").is_none());
    assert!(manifest_content_span("<manifest unterminated").is_none());
    assert!(manifest_content_span("<manifest a>no closing tag").is_none());
    assert!(manifest_tag_content("").is_none());
}

#[test]
fn permission_entry_uppercases_the_name() {
    let e = permission_entry("internet");
    assert_eq!(
        e,
        "<uses-permission android:name=\"android.permission.INTERNET\"/>"
    );
}

#[test]
fn permission_is_inserted_before_closing_tag() {
    let m = "<head/>\n<manifest opts>\n\t<application/>\n</manifest>\n";
    let out = add_uses_permission_entry(m, "internet").unwrap();
    assert_eq!(
        out,
        "<head/>\n<manifest opts>\n\t<application/>\n<uses-permission android:name=\"android.permission.INTERNET\"/></manifest>\n"
    );
}

#[test]
fn permission_insertion_is_idempotent() {
    let m = "<manifest opts>\n\t<application/>\n</manifest>\n";
    let once = add_uses_permission_entry(m, "internet").unwrap();
    let twice = add_uses_permission_entry(&once, "internet").unwrap();
    assert_eq!(once, twice);
    let entry = permission_entry("internet");
    assert_eq!(once.matches(entry.as_str()).count(), 1);
}

#[test]
fn permission_insertion_fails_without_root_element() {
    assert!(add_uses_permission_entry("<application/>", "internet").is_none());
}

#[test]
fn distinct_permissions_accumulate() {
    let m = "<manifest opts>\n</manifest>\n";
    let one = add_uses_permission_entry(m, "internet").unwrap();
    let two = add_uses_permission_entry(&one, "camera").unwrap();
    assert!(two.contains("android.permission.INTERNET"));
    assert!(two.contains("android.permission.CAMERA"));
    let again = add_uses_permission_entry(&two, "internet").unwrap();
    assert_eq!(two, again);
}
