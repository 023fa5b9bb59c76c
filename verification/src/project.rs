//! The project templater's text work: the synthesized entry-point class,
//! the package-qualified source directory, and the ordered literal
//! substitutions applied to the fixed set of project files.

use vstd::prelude::*;
use vstd::string::StringExecFns;

use crate::paths::path_join;
use crate::paths::path_join_seq;
use crate::text::chars_of;
use crate::text::replace_all;
use crate::text::replace_all_seq;
use crate::text::string_of;

verus! {

/// The entry-point class source, before the application id is substituted
/// for the placeholder.
pub open spec fn main_class_template() -> Seq<char> {
    "\n\t\tpackage $APP;\n\n\t\timport org.libsdl.app.SDLActivity;\n\n\t\tpublic class MainActivity extends SDLActivity {\n\t\t}\n\t"@
}

/// The synthesized entry-point class for the application id: the template
/// with every `$APP` replaced by the id.
pub fn main_activity_content(app_id: &str) -> (r: String)
    ensures
        r@ == replace_all_seq(main_class_template(), "$APP"@, app_id@),
{
    let template = chars_of(
        "\n\t\tpackage $APP;\n\n\t\timport org.libsdl.app.SDLActivity;\n\n\t\tpublic class MainActivity extends SDLActivity {\n\t\t}\n\t",
    );
    let from = chars_of("$APP");
    let to = chars_of(app_id);
    let out = replace_all(&template, &from, &to);
    string_of(&out)
}

/// The package-qualified directory path for an application id: dots become
/// path separators.
pub fn package_dir_path(app_id: &str) -> (r: String)
    ensures
        r@ == replace_all_seq(app_id@, "."@, "/"@),
{
    let v = chars_of(app_id);
    let from = chars_of(".");
    let to = chars_of("/");
    let out = replace_all(&v, &from, &to);
    string_of(&out)
}

/// Where the synthesized entry-point class file goes: the package-qualified
/// directory under the workspace's source root.
pub fn main_activity_dir(manifest_dir: &str, app_id: &str) -> (r: String)
    ensures
        r@ == path_join_seq(
            path_join_seq(manifest_dir@, "target/android-project/app/src/main/java"@),
            replace_all_seq(app_id@, "."@, "/"@),
        ),
{
    let root = path_join(manifest_dir, "target/android-project/app/src/main/java");
    let pkg = package_dir_path(app_id);
    path_join(root.as_str(), pkg.as_str())
}

/// Ordered literal substitutions, each applied with replace-all semantics.
pub open spec fn apply_replacements_seq(s: Seq<char>, rs: Seq<(Seq<char>, Seq<char>)>) -> Seq<char>
    decreases rs.len(),
{
    if rs.len() == 0 {
        s
    } else {
        apply_replacements_seq(replace_all_seq(s, rs[0].0, rs[0].1), rs.skip(1))
    }
}

proof fn lemma_apply_replacements_step(s: Seq<char>, rs: Seq<(Seq<char>, Seq<char>)>, i: int)
    requires
        0 <= i < rs.len(),
    ensures
        apply_replacements_seq(s, rs.skip(i)) == apply_replacements_seq(
            replace_all_seq(s, rs[i].0, rs[i].1),
            rs.skip(i + 1),
        ),
{
    assert(rs.skip(i)[0] == rs[i]);
    assert(rs.skip(i).skip(1) =~= rs.skip(i + 1));
}

/// `content` with the given substitutions applied in order, each with
/// replace-all semantics.
pub fn apply_replacements(content: &str, replacements: &Vec<(String, String)>) -> (r: String)
    ensures
        r@ == apply_replacements_seq(
            content@,
            replacements@.map_values(|p: (String, String)| (p.0@, p.1@)),
        ),
{
    let ghost rs = replacements@.map_values(|p: (String, String)| (p.0@, p.1@));
    let mut cur: Vec<char> = chars_of(content);
    let mut i: usize = 0;
    proof {
        assert(rs.skip(0) =~= rs);
    }
    while i < replacements.len()
        invariant
            rs == replacements@.map_values(|p: (String, String)| (p.0@, p.1@)),
            i <= replacements@.len(),
            apply_replacements_seq(content@, rs) == apply_replacements_seq(
                cur@,
                rs.skip(i as int),
            ),
        decreases replacements@.len() - i,
    {
        let pair = &replacements[i];
        let from = chars_of(pair.0.as_str());
        let to = chars_of(pair.1.as_str());
        proof {
            lemma_apply_replacements_step(cur@, rs, i as int);
        }
        cur = replace_all(&cur, &from, &to);
        i += 1;
    }
    assert(rs.skip(rs.len() as int) =~= Seq::<(Seq<char>, Seq<char>)>::empty());
    string_of(&cur)
}

/// One project file and the substitutions it receives, in order.
#[derive(Clone, PartialEq, Eq, Debug)]
pub struct FileEdit {
    /// Path of the file, relative to the project root.
    pub file: String,
    /// Ordered (from, to) literal substitutions.
    pub replacements: Vec<(String, String)>,
}

/// The fixed set of identity substitutions: the manifest gets the entry
/// point and the application id, the build configuration the application
/// id, and the display-strings resource the display name — in that order.
pub fn project_file_edits(app_id: &str, app_name: &str) -> (r: Vec<FileEdit>)
    ensures
        r@.len() == 3,
        r@[0].file@ == "app/src/main/AndroidManifest.xml"@,
        r@[0].replacements@.len() == 2,
        r@[0].replacements@[0].0@ == "SDLActivity"@,
        r@[0].replacements@[0].1@ == "MainActivity"@,
        r@[0].replacements@[1].0@ == "org.libsdl.app"@,
        r@[0].replacements@[1].1@ == app_id@,
        r@[1].file@ == "app/build.gradle"@,
        r@[1].replacements@.len() == 1,
        r@[1].replacements@[0].0@ == "org.libsdl.app"@,
        r@[1].replacements@[0].1@ == app_id@,
        r@[2].file@ == "app/src/main/res/values/strings.xml"@,
        r@[2].replacements@.len() == 1,
        r@[2].replacements@[0].0@ == "Game"@,
        r@[2].replacements@[0].1@ == app_name@,
{
    let mut manifest_subs: Vec<(String, String)> = Vec::new();
    manifest_subs.push(
        (String::from_str("SDLActivity"), String::from_str("MainActivity")),
    );
    manifest_subs.push((String::from_str("org.libsdl.app"), String::from_str(app_id)));
    let mut gradle_subs: Vec<(String, String)> = Vec::new();
    gradle_subs.push((String::from_str("org.libsdl.app"), String::from_str(app_id)));
    let mut strings_subs: Vec<(String, String)> = Vec::new();
    strings_subs.push((String::from_str("Game"), String::from_str(app_name)));
    let mut r: Vec<FileEdit> = Vec::new();
    r.push(
        FileEdit {
            file: String::from_str("app/src/main/AndroidManifest.xml"),
            replacements: manifest_subs,
        },
    );
    r.push(FileEdit { file: String::from_str("app/build.gradle"), replacements: gradle_subs });
    r.push(
        FileEdit {
            file: String::from_str("app/src/main/res/values/strings.xml"),
            replacements: strings_subs,
        },
    );
    r
}

} // verus!
