//! The signing pipeline's decisions: which build-tools version to use
//! (lexicographic maximum of the installed versions), how the keystore
//! credential is resolved or generated, the exact arguments of the
//! key-management, alignment and signing tools, and the state machine that
//! orders alignment before signing and stops on the first failure.

use vstd::prelude::*;
use vstd::string::StringExecFns;

use crate::paths::path_join;
use crate::paths::path_join_seq;
use crate::text::chars_of;

verus! {

/// Lexicographic order on character sequences by code point, the order in
/// which version directory names are ranked.
pub open spec fn lex_leq(a: Seq<char>, b: Seq<char>) -> bool
    decreases a.len(),
{
    if a.len() == 0 {
        true
    } else if b.len() == 0 {
        false
    } else if (a[0] as u32) == (b[0] as u32) {
        lex_leq(a.skip(1), b.skip(1))
    } else {
        (a[0] as u32) < (b[0] as u32)
    }
}

/// Any two sequences are ordered one way or the other.
pub proof fn lemma_lex_total(a: Seq<char>, b: Seq<char>)
    ensures
        lex_leq(a, b) || lex_leq(b, a),
    decreases a.len(),
{
    if a.len() == 0 {
    } else if b.len() == 0 {
    } else if (a[0] as u32) == (b[0] as u32) {
        lemma_lex_total(a.skip(1), b.skip(1));
    } else {
    }
}

/// The order is transitive.
pub proof fn lemma_lex_trans(a: Seq<char>, b: Seq<char>, c: Seq<char>)
    requires
        lex_leq(a, b),
        lex_leq(b, c),
    ensures
        lex_leq(a, c),
    decreases a.len(),
{
    if a.len() == 0 {
    } else if b.len() == 0 {
    } else if c.len() == 0 {
    } else {
        if (a[0] as u32) == (b[0] as u32) && (b[0] as u32) == (c[0] as u32) {
            lemma_lex_trans(a.skip(1), b.skip(1), c.skip(1));
        }
    }
}

/// Whether `a` precedes or equals `b` in lexicographic order.
pub fn lex_leq_str(a: &str, b: &str) -> (r: bool)
    ensures
        r == lex_leq(a@, b@),
{
    let av = chars_of(a);
    let bv = chars_of(b);
    let mut i: usize = 0;
    proof {
        assert(a@.skip(0) =~= a@);
        assert(b@.skip(0) =~= b@);
    }
    loop
        invariant
            av@ == a@,
            bv@ == b@,
            i <= av@.len(),
            i <= bv@.len(),
            lex_leq(a@, b@) == lex_leq(a@.skip(i as int), b@.skip(i as int)),
        decreases av@.len() - i,
    {
        if i >= av.len() {
            return true;
        }
        if i >= bv.len() {
            return false;
        }
        let ca = av[i];
        let cb = bv[i];
        proof {
            assert(a@.skip(i as int)[0] == a@[i as int]);
            assert(b@.skip(i as int)[0] == b@[i as int]);
            assert(a@.skip(i as int).skip(1) =~= a@.skip(i as int + 1));
            assert(b@.skip(i as int).skip(1) =~= b@.skip(i as int + 1));
        }
        if ca as u32 == cb as u32 {
            i += 1;
        } else {
            return (ca as u32) < (cb as u32);
        }
    }
}

/// The greatest entry of the build-tools installation directory in
/// lexicographic order — the tool version the pipeline uses. `None` exactly
/// when the directory lists nothing, which is fatal for signing.
pub fn select_tools_version(entries: &Vec<String>) -> (r: Option<String>)
    ensures
        r is None <==> entries@.len() == 0,
        r matches Some(m) ==> (exists|k: int|
            0 <= k < entries@.len() && (#[trigger] entries@[k])@ == m@) && (forall|k: int|
            0 <= k < entries@.len() ==> lex_leq((#[trigger] entries@[k])@, m@)),
{
    if entries.len() == 0 {
        return None;
    }
    let mut best: String = entries[0].clone();
    let mut i: usize = 1;
    proof {
        lemma_lex_total(best@, best@);
        assert(entries@[0]@ == best@);
    }
    while i < entries.len()
        invariant
            1 <= i <= entries@.len(),
            exists|k: int| 0 <= k < i && (#[trigger] entries@[k])@ == best@,
            forall|k: int| 0 <= k < i ==> lex_leq((#[trigger] entries@[k])@, best@),
        decreases entries@.len() - i,
    {
        let cand = &entries[i];
        if !lex_leq_str(cand.as_str(), best.as_str()) {
            proof {
                lemma_lex_total(cand@, best@);
                assert forall|k: int| 0 <= k < i implies lex_leq((#[trigger] entries@[k])@, cand@) by {
                    lemma_lex_trans(entries@[k]@, best@, cand@);
                }
            }
            best = cand.clone();
        }
        proof {
            lemma_lex_total(best@, best@);
        }
        i += 1;
    }
    Some(best)
}

/// A signing failure the caller must treat as fatal configuration.
#[derive(Clone, Copy, PartialEq, Eq, Structural, Debug)]
pub enum SignError {
    /// A keystore file was supplied without its password.
    MissingKeystorePassword,
}

/// The resolved keystore credential and whether a keystore must first be
/// generated.
#[derive(Clone, PartialEq, Eq, Debug)]
pub struct KeystorePlan {
    /// The keystore file the signing tool uses.
    pub key_file: String,
    /// The password reference handed to the signing tool.
    pub key_pass: String,
    /// Whether the key-management tool must generate the keystore first.
    pub generate: bool,
}

/// The conventional keystore filename inside the release output directory.
pub open spec fn default_keystore_spec(release_dir: Seq<char>) -> Seq<char> {
    path_join_seq(release_dir, "app-release.jks"@)
}

/// Resolves the keystore credential: a supplied keystore is used verbatim
/// and demands its password; otherwise the conventional keystore inside the
/// release directory is used with the fixed password reference, generated
/// first when no file exists there yet.
pub fn resolve_credential(
    ks_file: Option<String>,
    ks_pass: Option<String>,
    release_dir: &str,
    key_exists: bool,
) -> (r: Result<KeystorePlan, SignError>)
    ensures
        ks_file is Some && ks_pass is None ==> (r matches Err(e) && e
            == SignError::MissingKeystorePassword),
        ks_file matches Some(f) ==> ks_pass matches Some(p) ==> (r matches Ok(k) && k.key_file@
            == f@ && k.key_pass@ == p@ && !k.generate),
        ks_file is None ==> (r matches Ok(k) && k.key_file@ == default_keystore_spec(release_dir@)
            && k.key_pass@ == "pass:android"@ && k.generate == !key_exists),
{
    match ks_file {
        Some(f) => match ks_pass {
            Some(p) => Ok(KeystorePlan { key_file: f, key_pass: p, generate: false }),
            None => Err(SignError::MissingKeystorePassword),
        },
        None => Ok(
            KeystorePlan {
                key_file: path_join(release_dir, "app-release.jks"),
                key_pass: String::from_str("pass:android"),
                generate: !key_exists,
            },
        ),
    }
}

/// The path of one signing tool under the platform toolkit's build-tools
/// directory, for the selected version.
pub fn build_tool_path(sdk_root: &str, version: &str, tool: &str) -> (r: String)
    ensures
        r@ == path_join_seq(path_join_seq(path_join_seq(sdk_root@, "build-tools"@), version@), tool@),
{
    path_join(
        path_join(path_join(sdk_root, "build-tools").as_str(), version).as_str(),
        tool,
    )
}

/// The exact arguments of the key-management tool when generating the
/// conventional keystore: a fixed placeholder subject, the fixed store
/// password, a 2048-bit RSA key and the fixed validity period.
pub fn keytool_args(key_file: &str) -> (r: Vec<String>)
    ensures
        r@.len() == 13,
        r@[0]@ == "-genkey"@,
        r@[1]@ == "-dname"@,
        r@[2]@ == "CN=Unknown, OU=Unknown, O=Unknown, L=Unknown, S=Unknown, C=Unknown"@,
        r@[3]@ == "-storepass"@,
        r@[4]@ == "android"@,
        r@[5]@ == "-keystore"@,
        r@[6]@ == key_file@,
        r@[7]@ == "-keyalg"@,
        r@[8]@ == "RSA"@,
        r@[9]@ == "-keysize"@,
        r@[10]@ == "2048"@,
        r@[11]@ == "-validity"@,
        r@[12]@ == "10000"@,
{
    let mut r: Vec<String> = Vec::new();
    r.push(String::from_str("-genkey"));
    r.push(String::from_str("-dname"));
    r.push(String::from_str("CN=Unknown, OU=Unknown, O=Unknown, L=Unknown, S=Unknown, C=Unknown"));
    r.push(String::from_str("-storepass"));
    r.push(String::from_str("android"));
    r.push(String::from_str("-keystore"));
    r.push(String::from_str(key_file));
    r.push(String::from_str("-keyalg"));
    r.push(String::from_str("RSA"));
    r.push(String::from_str("-keysize"));
    r.push(String::from_str("2048"));
    r.push(String::from_str("-validity"));
    r.push(String::from_str("10000"));
    r
}

/// The exact arguments of the alignment tool: verbose, forced overwrite, the
/// fixed 4-byte boundary, then the unsigned package in and the aligned
/// package out, both inside the release directory.
pub fn zipalign_args(release_dir: &str) -> (r: Vec<String>)
    ensures
        r@.len() == 6,
        r@[0]@ == "-v"@,
        r@[1]@ == "-f"@,
        r@[2]@ == "-p"@,
        r@[3]@ == "4"@,
        r@[4]@ == path_join_seq(release_dir@, "app-release-unsigned.apk"@),
        r@[5]@ == path_join_seq(release_dir@, "app-release-unsigned-aligned.apk"@),
{
    let mut r: Vec<String> = Vec::new();
    r.push(String::from_str("-v"));
    r.push(String::from_str("-f"));
    r.push(String::from_str("-p"));
    r.push(String::from_str("4"));
    r.push(path_join(release_dir, "app-release-unsigned.apk"));
    r.push(path_join(release_dir, "app-release-unsigned-aligned.apk"));
    r
}

/// The exact arguments of the package-signing tool: the resolved credential,
/// the signed package out, and the aligned package in.
pub fn apksigner_args(key_file: &str, key_pass: &str, release_dir: &str) -> (r: Vec<String>)
    ensures
        r@.len() == 8,
        r@[0]@ == "sign"@,
        r@[1]@ == "-ks"@,
        r@[2]@ == key_file@,
        r@[3]@ == "-ks-pass"@,
        r@[4]@ == key_pass@,
        r@[5]@ == "-out"@,
        r@[6]@ == path_join_seq(release_dir@, "app-release.apk"@),
        r@[7]@ == path_join_seq(release_dir@, "app-release-unsigned-aligned.apk"@),
{
    let mut r: Vec<String> = Vec::new();
    r.push(String::from_str("sign"));
    r.push(String::from_str("-ks"));
    r.push(String::from_str(key_file));
    r.push(String::from_str("-ks-pass"));
    r.push(String::from_str(key_pass));
    r.push(String::from_str("-out"));
    r.push(path_join(release_dir, "app-release.apk"));
    r.push(path_join(release_dir, "app-release-unsigned-aligned.apk"));
    r
}

/// The states of the signing pipeline. `Signed` is terminal success;
/// `Failed` is terminal failure.
#[derive(Clone, Copy, PartialEq, Eq, Structural, Debug)]
pub enum SigningState {
    /// The keystore credential is not resolved yet.
    NeedCredential,
    /// The credential is resolved; alignment runs next.
    CredentialResolved,
    /// The package is aligned; signing runs next.
    Aligned,
    /// The final signed package exists.
    Signed,
    /// A step's invocation failed or a required tool was missing.
    Failed,
}

/// The outside work a signing state calls for.
#[derive(Clone, Copy, PartialEq, Eq, Structural, Debug)]
pub enum SigningAction {
    /// Resolve the keystore credential (`resolve_credential`), running the
    /// key-management tool with `keytool_args` when the plan says to
    /// generate.
    ResolveCredential,
    /// Run the package-alignment tool with `zipalign_args`.
    Align,
    /// Run the package-signing tool with `apksigner_args`.
    Sign,
}

/// The step owed in each state: credential resolution, then alignment, then
/// signing; the two terminal states ask for nothing. Together with
/// `signing_advance` this pins the order — from `NeedCredential`, alignment
/// is asked for exactly once, before signing, and signing exactly once,
/// after it and only after every earlier step succeeded.
pub fn signing_action(state: SigningState) -> (r: Option<SigningAction>)
    ensures
        state == SigningState::NeedCredential ==> r == Some(SigningAction::ResolveCredential),
        state == SigningState::CredentialResolved ==> r == Some(SigningAction::Align),
        state == SigningState::Aligned ==> r == Some(SigningAction::Sign),
        state == SigningState::Signed ==> r is None,
        state == SigningState::Failed ==> r is None,
{
    match state {
        SigningState::NeedCredential => Some(SigningAction::ResolveCredential),
        SigningState::CredentialResolved => Some(SigningAction::Align),
        SigningState::Aligned => Some(SigningAction::Sign),
        SigningState::Signed => None,
        SigningState::Failed => None,
    }
}

/// One transition of the signing pipeline: `ok` reports the current step's
/// outcome. Any failing step is terminal; otherwise credential resolution,
/// alignment and signing follow each other in that fixed order.
pub fn signing_advance(state: SigningState, ok: bool) -> (r: SigningState)
    ensures
        !ok ==> r == SigningState::Failed,
        ok && state == SigningState::NeedCredential ==> r == SigningState::CredentialResolved,
        ok && state == SigningState::CredentialResolved ==> r == SigningState::Aligned,
        ok && state == SigningState::Aligned ==> r == SigningState::Signed,
        ok && state == SigningState::Signed ==> r == SigningState::Signed,
        ok && state == SigningState::Failed ==> r == SigningState::Failed,
{
    if !ok {
        return SigningState::Failed;
    }
    match state {
        SigningState::NeedCredential => SigningState::CredentialResolved,
        SigningState::CredentialResolved => SigningState::Aligned,
        SigningState::Aligned => SigningState::Signed,
        SigningState::Signed => SigningState::Signed,
        SigningState::Failed => SigningState::Failed,
    }
}

} // verus!
