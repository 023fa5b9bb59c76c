//! Targeted mutation of the platform manifest: locating the root element's
//! content span (tolerating newlines inside the opening tag), and inserting
//! `uses-permission` entries immediately before the closing root tag, never
//! twice for the same entry.

use vstd::prelude::*;
use vstd::string::StrSliceExecFns;
use vstd::string::StringExecFns;

use crate::text::chars_of;
use crate::text::contains_seq;
use crate::text::contains_sub;
use crate::text::first_occurrence_from;
use crate::text::insert_chars;
use crate::text::insert_seq;
use crate::text::last_occurrence_from;
use crate::text::lemma_first_occurrence_from;
use crate::text::lemma_insert_indexing;
use crate::text::lemma_last_occurrence_from;
use crate::text::lemma_occurs_across_insert;
use crate::text::occurs_at;
use crate::text::string_of;
use crate::text::subvec;

verus! {

/// Opening token of the manifest root element.
pub open spec fn open_tag() -> Seq<char> {
    "<manifest"@
}

/// End of the opening tag; the first one at or after the opening token closes
/// it, which is the shortest (non-greedy) reading of the tag.
pub open spec fn tag_end() -> Seq<char> {
    ">"@
}

/// Closing tag of the manifest root element.
pub open spec fn close_tag() -> Seq<char> {
    "</manifest>"@
}

/// The root element's content span `(start, end)`: content starts right after
/// the first `>` that follows the first `<manifest`, and ends at the last
/// `</manifest>` in the rest of the document, so that everything between the
/// tags is captured. `None` when the document has no such shape.
pub open spec fn manifest_span_spec(s: Seq<char>) -> Option<(int, int)> {
    match first_occurrence_from(s, open_tag(), 0) {
        None => None,
        Some(o) => match first_occurrence_from(s, tag_end(), o + open_tag().len() as int) {
            None => None,
            Some(g) => match last_occurrence_from(s, close_tag(), g + 1) {
                None => None,
                Some(c) => Some((g + 1, c)),
            },
        },
    }
}

/// A located span is ordered and leaves room for the closing tag.
pub proof fn lemma_span_bounds(m: Seq<char>)
    requires
        manifest_span_spec(m) is Some,
    ensures
        ({
            let span = manifest_span_spec(m).unwrap();
            0 < span.0 <= span.1 && span.1 + close_tag().len() <= m.len()
        }),
{
    let o = first_occurrence_from(m, open_tag(), 0).unwrap();
    lemma_first_occurrence_from(m, open_tag(), 0);
    let g = first_occurrence_from(m, tag_end(), o + open_tag().len() as int).unwrap();
    lemma_first_occurrence_from(m, tag_end(), o + open_tag().len() as int);
    let c = last_occurrence_from(m, close_tag(), g + 1).unwrap();
    lemma_last_occurrence_from(m, close_tag(), g + 1);
}

/// The root element's content span of `manifest`, in character offsets.
pub fn manifest_content_span(manifest: &str) -> (r: Option<(usize, usize)>)
    ensures
        match r {
            Some(p) => manifest_span_spec(manifest@) == Some((p.0 as int, p.1 as int)) && 0 < p.0
                <= p.1 && p.1 + close_tag().len() <= manifest@.len(),
            None => manifest_span_spec(manifest@) is None,
        },
{
    let m = chars_of(manifest);
    span_chars(&m)
}

/// The root element's content span over a character vector.
fn span_chars(m: &Vec<char>) -> (r: Option<(usize, usize)>)
    ensures
        match r {
            Some(p) => manifest_span_spec(m@) == Some((p.0 as int, p.1 as int)) && 0 < p.0 <= p.1
                && p.1 + close_tag().len() <= m@.len(),
            None => manifest_span_spec(m@) is None,
        },
{
    let mlen = m.len();
    let open = chars_of("<manifest");
    let end = chars_of(">");
    let close = chars_of("</manifest>");
    let o = match crate::text::find_from(m, &open, 0) {
        None => {
            return None;
        },
        Some(o) => o,
    };
    proof {
        lemma_first_occurrence_from(m@, open_tag(), 0);
        assert(occurs_at(m@, open_tag(), o as int));
        assert(o + open@.len() <= mlen);
    }
    let g = match crate::text::find_from(m, &end, o + open.len()) {
        None => {
            return None;
        },
        Some(g) => g,
    };
    proof {
        lemma_first_occurrence_from(m@, tag_end(), o + open_tag().len() as int);
        assert(occurs_at(m@, tag_end(), g as int));
        reveal_strlit(">");
        assert(g + 1 <= mlen);
    }
    let c = match crate::text::rfind_from(m, &close, g + 1) {
        None => {
            return None;
        },
        Some(c) => c,
    };
    proof {
        lemma_last_occurrence_from(m@, close_tag(), g + 1);
    }
    Some((g + 1, c))
}

/// The text strictly between the root element's tags, if the pattern matches.
pub fn manifest_tag_content(manifest: &str) -> (r: Option<String>)
    ensures
        match r {
            Some(out) => manifest_span_spec(manifest@) is Some && out@ == ({
                let span = manifest_span_spec(manifest@).unwrap();
                manifest@.subrange(span.0, span.1)
            }),
            None => manifest_span_spec(manifest@) is None,
        },
{
    let m = chars_of(manifest);
    match span_chars(&m) {
        None => None,
        Some((cs, ce)) => {
            let content = subvec(&m, cs, ce);
            Some(string_of(&content))
        },
    }
}

/// `s` with `ins` inserted at character offset `at`.
pub fn insert_text(s: &str, at: usize, ins: &str) -> (r: String)
    requires
        at <= s@.len(),
    ensures
        r@ == insert_seq(s@, at as int, ins@),
{
    let sv = chars_of(s);
    let iv = chars_of(ins);
    let out = insert_chars(&sv, at, &iv);
    string_of(&out)
}

/// What `str::to_uppercase` returns: a function of the characters alone.
pub uninterp spec fn upper_of(s: Seq<char>) -> Seq<char>;

/// Relies on `str::to_uppercase`: the uppercase equivalent of the string,
/// depending on nothing but its characters.
#[verifier::external_body]
fn to_upper(s: &str) -> (r: String)
    ensures
        r@ == upper_of(s@),
{
    s.to_uppercase()
}

/// Fixed first part of a permission entry.
pub open spec fn entry_prefix() -> Seq<char> {
    "<uses-permission android:name=\"android.permission."@
}

/// Fixed last part of a permission entry.
pub open spec fn entry_suffix() -> Seq<char> {
    "\"/>"@
}

/// The manifest entry for a permission name: the fixed template around the
/// upper-cased name.
pub open spec fn permission_entry_seq(p: Seq<char>) -> Seq<char> {
    entry_prefix() + upper_of(p) + entry_suffix()
}

/// The manifest entry for a permission name.
pub fn permission_entry(permission: &str) -> (r: String)
    ensures
        r@ == permission_entry_seq(permission@),
{
    let mut r = String::from_str("<uses-permission android:name=\"android.permission.");
    let up = to_upper(permission);
    r.append(up.as_str());
    r.append("\"/>");
    proof {
        assert((entry_prefix() + upper_of(permission@)) + entry_suffix()
            =~= permission_entry_seq(permission@));
    }
    r
}

/// The manifest after asking for a permission: unchanged when the entry is
/// already inside the root element's content, otherwise with the entry
/// inserted right before the closing root tag; `None` when the root element
/// cannot be located.
pub open spec fn insert_permission_spec(m: Seq<char>, p: Seq<char>) -> Option<Seq<char>> {
    match manifest_span_spec(m) {
        None => None,
        Some(span) => {
            let entry = permission_entry_seq(p);
            if contains_seq(m.subrange(span.0, span.1), entry) {
                Some(m)
            } else {
                Some(insert_seq(m, span.1, entry))
            }
        },
    }
}

/// Inserts the entry for `permission` into the manifest unless an identical
/// entry already stands inside the root element's content; `None` is the
/// fatal case where the root element cannot be located by the pattern.
pub fn add_uses_permission_entry(manifest: &str, permission: &str) -> (r: Option<String>)
    ensures
        match r {
            Some(out) => insert_permission_spec(manifest@, permission@) == Some(out@),
            None => insert_permission_spec(manifest@, permission@) is None,
        },
{
    let m = chars_of(manifest);
    let (cs, ce) = match span_chars(&m) {
        None => {
            return None;
        },
        Some(p) => p,
    };
    let entry_string = permission_entry(permission);
    let entry = chars_of(entry_string.as_str());
    let content = subvec(&m, cs, ce);
    if contains_sub(&content, &entry) {
        Some(String::from_str(manifest))
    } else {
        let out = insert_chars(&m, ce, &entry);
        Some(string_of(&out))
    }
}

/// Inserting at the end of the root element's content moves the span's end by
/// exactly the inserted length and nothing else: on re-matching, the content
/// is the original content followed verbatim by the insertion.
pub proof fn lemma_span_after_insert(m: Seq<char>, ins: Seq<char>)
    requires
        manifest_span_spec(m) is Some,
    ensures
        ({
            let span = manifest_span_spec(m).unwrap();
            manifest_span_spec(insert_seq(m, span.1, ins)) == Some(
                (span.0, span.1 + ins.len() as int),
            )
        }),
{
    reveal_strlit(">");
    let span = manifest_span_spec(m).unwrap();
    let cs = span.0;
    let ce = span.1;
    let o = first_occurrence_from(m, open_tag(), 0).unwrap();
    lemma_first_occurrence_from(m, open_tag(), 0);
    let g = first_occurrence_from(m, tag_end(), o + open_tag().len() as int).unwrap();
    lemma_first_occurrence_from(m, tag_end(), o + open_tag().len() as int);
    lemma_last_occurrence_from(m, close_tag(), g + 1);
    assert(cs == g + 1);
    assert(occurs_at(m, open_tag(), o));
    assert(occurs_at(m, tag_end(), g) && g >= o + open_tag().len());
    assert(occurs_at(m, close_tag(), ce) && ce >= cs);

    let t = insert_seq(m, ce, ins);
    lemma_insert_indexing(m, ce, ins);

    // The opening token is still first at `o`.
    lemma_occurs_across_insert(m, ce, ins, open_tag(), o);
    assert(occurs_at(t, open_tag(), o));
    lemma_first_occurrence_from(t, open_tag(), 0);
    let fo2 = first_occurrence_from(t, open_tag(), 0);
    assert(fo2 is Some) by {
        if fo2 is None {
            assert(!occurs_at(t, open_tag(), o));
        }
    }
    let o2 = fo2.unwrap();
    assert(o2 <= o) by {
        if o2 > o {
            assert(!occurs_at(t, open_tag(), o));
        }
    }
    if o2 < o {
        lemma_occurs_across_insert(m, ce, ins, open_tag(), o2);
        assert(occurs_at(m, open_tag(), o2));
        assert(false);
    }
    assert(fo2 == Some(o));

    // The end of the opening tag is still first at `g`.
    lemma_occurs_across_insert(m, ce, ins, tag_end(), g);
    assert(occurs_at(t, tag_end(), g));
    lemma_first_occurrence_from(t, tag_end(), o + open_tag().len() as int);
    let fg2 = first_occurrence_from(t, tag_end(), o + open_tag().len() as int);
    assert(fg2 is Some) by {
        if fg2 is None {
            assert(!occurs_at(t, tag_end(), g));
        }
    }
    let g2 = fg2.unwrap();
    assert(g2 <= g) by {
        if g2 > g {
            assert(!occurs_at(t, tag_end(), g));
        }
    }
    if g2 < g {
        lemma_occurs_across_insert(m, ce, ins, tag_end(), g2);
        assert(occurs_at(m, tag_end(), g2));
        assert(false);
    }
    assert(fg2 == Some(g));

    // The last closing tag moved up by exactly the inserted length.
    lemma_occurs_across_insert(m, ce, ins, close_tag(), ce);
    assert(occurs_at(t, close_tag(), ce + ins.len()));
    lemma_last_occurrence_from(t, close_tag(), cs);
    let fc2 = last_occurrence_from(t, close_tag(), cs);
    assert(fc2 is Some) by {
        if fc2 is None {
            assert(!occurs_at(t, close_tag(), ce + ins.len()));
        }
    }
    let c2 = fc2.unwrap();
    assert(c2 >= ce + ins.len()) by {
        if c2 < ce + ins.len() {
            assert(!occurs_at(t, close_tag(), ce + ins.len()));
        }
    }
    if c2 > ce + ins.len() {
        lemma_occurs_across_insert(m, ce, ins, close_tag(), c2);
        assert(occurs_at(m, close_tag(), c2 - ins.len()));
        assert(false);
    }
    assert(fc2 == Some(ce + ins.len() as int));
    assert(manifest_span_spec(t) == Some((cs, ce + ins.len() as int)));
}

/// Inserting at the end of the matched content and re-matching yields a
/// content string equal to the original content with the insertion appended,
/// verbatim.
pub proof fn lemma_content_after_insert(m: Seq<char>, ins: Seq<char>)
    requires
        manifest_span_spec(m) is Some,
    ensures
        ({
            let span = manifest_span_spec(m).unwrap();
            let t = insert_seq(m, span.1, ins);
            manifest_span_spec(t) == Some((span.0, span.1 + ins.len() as int)) && t.subrange(
                span.0,
                span.1 + ins.len() as int,
            ) == m.subrange(span.0, span.1) + ins
        }),
{
    let span = manifest_span_spec(m).unwrap();
    let cs = span.0;
    let ce = span.1;
    let content = m.subrange(cs, ce);
    lemma_span_bounds(m);
    lemma_span_after_insert(m, ins);
    lemma_insert_indexing(m, ce, ins);
    let t = insert_seq(m, ce, ins);
    let content2 = t.subrange(cs, ce + ins.len() as int);
    assert(content2 =~= content + ins) by {
        assert forall|k: int| 0 <= k < ce + ins.len() - cs implies content2[k] == (content
            + ins)[k] by {
            if k < ce - cs {
                assert(t[cs + k] == m[cs + k]);
            } else {
                assert(t[ce + (cs + k - ce)] == ins[cs + k - ce]);
            }
        }
    }
}

/// Permission insertion is idempotent: asking twice for the same permission
/// leaves the manifest exactly as one insertion left it, with the entry
/// standing once.
pub proof fn lemma_permission_insertion_idempotent(m: Seq<char>, p: Seq<char>)
    requires
        insert_permission_spec(m, p) is Some,
    ensures
        insert_permission_spec(insert_permission_spec(m, p).unwrap(), p) == insert_permission_spec(
            m,
            p,
        ),
{
    let span = manifest_span_spec(m).unwrap();
    let cs = span.0;
    let ce = span.1;
    let entry = permission_entry_seq(p);
    let content = m.subrange(cs, ce);
    lemma_span_bounds(m);
    if contains_seq(content, entry) {
    } else {
        let t = insert_seq(m, ce, entry);
        lemma_content_after_insert(m, entry);
        let content2 = t.subrange(cs, ce + entry.len() as int);
        assert(occurs_at(content2, entry, content.len() as int)) by {
            assert(content2.subrange(
                content.len() as int,
                content.len() + entry.len() as int,
            ) =~= entry);
        }
        assert(contains_seq(content2, entry));
        assert(insert_permission_spec(t, p) == Some(t));
    }
}

} // verus!
