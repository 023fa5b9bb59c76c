//! The architecture name mapper: the fixed, exhaustive table from
//! cross-compilation target identifiers to the platform's per-architecture
//! directory names. An identifier outside the table is a fatal configuration
//! error, surfaced as `None`; the mapper never guesses.

use vstd::prelude::*;

use crate::text::str_eq;

verus! {

/// The fixed table: the four supported targets and their directory names;
/// anything else is unknown.
pub open spec fn target_android_name_spec(t: Seq<char>) -> Option<Seq<char>> {
    if t == "aarch64-linux-android"@ {
        Some("arm64-v8a"@)
    } else if t == "armv7-linux-androideabi"@ {
        Some("armeabi-v7a"@)
    } else if t == "i686-linux-android"@ {
        Some("x86"@)
    } else if t == "x86_64-linux-android"@ {
        Some("x86_64"@)
    } else {
        None
    }
}

/// The architecture directory name for a compilation target, `None` for a
/// target outside the fixed table.
pub fn get_target_android_name(rust_target_name: &str) -> (r: Option<&'static str>)
    ensures
        match r {
            Some(a) => target_android_name_spec(rust_target_name@) == Some(a@),
            None => target_android_name_spec(rust_target_name@) is None,
        },
{
    if str_eq(rust_target_name, "aarch64-linux-android") {
        Some("arm64-v8a")
    } else if str_eq(rust_target_name, "armv7-linux-androideabi") {
        Some("armeabi-v7a")
    } else if str_eq(rust_target_name, "i686-linux-android") {
        Some("x86")
    } else if str_eq(rust_target_name, "x86_64-linux-android") {
        Some("x86_64")
    } else {
        None
    }
}

/// The table maps distinct targets to distinct architecture names.
pub proof fn lemma_target_android_name_injective(t1: Seq<char>, t2: Seq<char>)
    requires
        t1 != t2,
        target_android_name_spec(t1) is Some,
        target_android_name_spec(t2) is Some,
    ensures
        target_android_name_spec(t1) != target_android_name_spec(t2),
{
    reveal_strlit("arm64-v8a");
    reveal_strlit("armeabi-v7a");
    reveal_strlit("x86");
    reveal_strlit("x86_64");
    // The four architecture names have pairwise different lengths.
    assert("arm64-v8a"@.len() == 9);
    assert("armeabi-v7a"@.len() == 11);
    assert("x86"@.len() == 3);
    assert("x86_64"@.len() == 6);
}

} // verus!
