//! Dotted-path lookups into the declarative metadata document, and the
//! documented defaults of the application identity. The lookup itself is an
//! external collaborator, trusted at this interface: each lookup shape is
//! one trusted call whose result carries a name, a function of the document
//! text and the path alone. What the pipeline owes for present and missing
//! fields is stated over those names and proved here.

use vstd::prelude::*;
use vstd::string::StringExecFns;

verus! {

#[verifier::external_type_specification]
#[verifier::external_body]
pub struct ExTomlValue(toml::Value);

/// The views of a path's keys.
pub open spec fn path_views(path: Seq<String>) -> Seq<Seq<char>> {
    path.map_values(|k: String| k@)
}

/// Whether the metadata document holds an entry at the dotted path: it is
/// well-formed, every step lands in a table, and every key is present.
pub uninterp spec fn toml_has_entry(doc: Seq<char>, path: Seq<Seq<char>>) -> bool;

/// The string at the dotted path of the metadata document, if the document
/// holds one there.
pub uninterp spec fn toml_string_of(doc: Seq<char>, path: Seq<Seq<char>>) -> Option<Seq<char>>;

/// The list of strings at the dotted path of the metadata document, if the
/// document holds an array of strings there.
pub uninterp spec fn toml_string_list_of(doc: Seq<char>, path: Seq<Seq<char>>) -> Option<
    Seq<Seq<char>>,
>;

/// The value under a dotted path of keys in the metadata document: the
/// document's root for an empty path; `None` when the document is not
/// well-formed, a key is missing, or an intermediate value is not a table.
///
/// Relies on `str::parse::<toml::Table>` and `toml::Value::get`: whether the
/// walk succeeds depends on the document text and the keys alone.
#[verifier::external_body]
pub fn get_toml_entry(toml_content: &str, path: &Vec<String>) -> (r: Option<toml::Value>)
    ensures
        r is Some <==> toml_has_entry(toml_content@, path_views(path@)),
{
    let table: toml::Table = toml_content.parse().ok()?;
    let mut cur = toml::Value::Table(table);
    for key in path.iter() {
        cur = cur.get(key.as_str())?.clone();
    }
    Some(cur)
}

/// The string under a dotted path, `None` when absent or not a string.
///
/// Relies on `str::parse::<toml::Table>`, `toml::Value::get` and the
/// `toml::Value::String` variant: the result depends on the document text
/// and the keys alone.
#[verifier::external_body]
pub fn get_toml_string(toml_content: &str, path: &Vec<String>) -> (r: Option<String>)
    ensures
        r is Some <==> toml_string_of(toml_content@, path_views(path@)) is Some,
        r matches Some(s) ==> toml_string_of(toml_content@, path_views(path@)) == Some(s@),
{
    let table: toml::Table = toml_content.parse().ok()?;
    let mut cur = toml::Value::Table(table);
    for key in path.iter() {
        cur = cur.get(key.as_str())?.clone();
    }
    match cur {
        toml::Value::String(s) => Some(s),
        _ => None,
    }
}

/// The list of strings under a dotted path, `None` when absent, not an
/// array, or holding any non-string element.
///
/// Relies on `str::parse::<toml::Table>`, `toml::Value::get` and the
/// `toml::Value::Array` and `toml::Value::String` variants: the result
/// depends on the document text and the keys alone.
#[verifier::external_body]
pub fn get_toml_string_vec(toml_content: &str, path: &Vec<String>) -> (r: Option<Vec<String>>)
    ensures
        r is Some <==> toml_string_list_of(toml_content@, path_views(path@)) is Some,
        r matches Some(v) ==> toml_string_list_of(toml_content@, path_views(path@)) == Some(
            v@.map_values(|s: String| s@),
        ),
{
    let table: toml::Table = toml_content.parse().ok()?;
    let mut cur = toml::Value::Table(table);
    for key in path.iter() {
        cur = cur.get(key.as_str())?.clone();
    }
    match cur {
        toml::Value::Array(a) => a
            .into_iter()
            .map(|v| match v {
                toml::Value::String(s) => Some(s),
                _ => None,
            })
            .collect(),
        _ => None,
    }
}

/// The documented default application id.
pub open spec fn default_app_id_seq() -> Seq<char> {
    "org.libsdl.app"@
}

/// The documented default display name.
pub open spec fn default_title_seq() -> Seq<char> {
    "Untitled"@
}

/// The application id owed for a `package_name` lookup: the looked-up value
/// itself, or the documented placeholder when the metadata has none.
pub fn app_id_or_default(package_name: Option<String>) -> (r: String)
    ensures
        match package_name {
            Some(s) => r@ == s@,
            None => r@ == default_app_id_seq(),
        },
{
    match package_name {
        Some(s) => s,
        None => String::from_str("org.libsdl.app"),
    }
}

/// The display name owed for a `title` lookup: the looked-up value itself,
/// or the documented default when the metadata has none.
pub fn title_or_default(title: Option<String>) -> (r: String)
    ensures
        match title {
            Some(s) => r@ == s@,
            None => r@ == default_title_seq(),
        },
{
    match title {
        Some(s) => s,
        None => String::from_str("Untitled"),
    }
}

/// The permission list owed for a `permissions` lookup: the looked-up list,
/// or no permissions at all when the metadata has none.
pub fn permissions_or_default(permissions: Option<Vec<String>>) -> (r: Vec<String>)
    ensures
        match permissions {
            Some(v) => r@ == v@,
            None => r@.len() == 0,
        },
{
    match permissions {
        Some(v) => v,
        None => Vec::new(),
    }
}

/// The dotted path `package.metadata.android.<field>`.
pub fn metadata_path(field: &str) -> (r: Vec<String>)
    ensures
        r@.len() == 4,
        r@[0]@ == "package"@,
        r@[1]@ == "metadata"@,
        r@[2]@ == "android"@,
        r@[3]@ == field@,
{
    let mut r: Vec<String> = Vec::new();
    r.push(String::from_str("package"));
    r.push(String::from_str("metadata"));
    r.push(String::from_str("android"));
    r.push(String::from_str(field));
    r
}

/// The dotted path `package.metadata.android.<field>`, as key views.
pub open spec fn android_meta_path(field: Seq<char>) -> Seq<Seq<char>> {
    seq!["package"@, "metadata"@, "android"@, field]
}

/// The application id of the metadata document: its
/// `package.metadata.android.package_name`, or the documented placeholder
/// when the document has none.
pub fn get_android_app_id(toml_content: &str) -> (r: String)
    ensures
        r@ == match toml_string_of(toml_content@, android_meta_path("package_name"@)) {
            Some(s) => s,
            None => default_app_id_seq(),
        },
{
    let path = metadata_path("package_name");
    proof {
        assert(path_views(path@) =~= android_meta_path("package_name"@));
    }
    app_id_or_default(get_toml_string(toml_content, &path))
}

} // verus!
