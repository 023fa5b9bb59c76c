//! Plain-text building blocks: substring search, containment, insertion and
//! literal replace-all over character sequences. These carry the templating
//! and manifest-editing steps of the assembly pipeline.

use vstd::prelude::*;

verus! {

/// `pat` occurs in `s` starting at index `i`.
pub open spec fn occurs_at(s: Seq<char>, pat: Seq<char>, i: int) -> bool {
    0 <= i && i + pat.len() <= s.len() && s.subrange(i, i + pat.len() as int) == pat
}

/// `pat` occurs somewhere in `s`.
pub open spec fn contains_seq(s: Seq<char>, pat: Seq<char>) -> bool {
    exists|i: int| occurs_at(s, pat, i)
}

/// The least index at or after `lo` where `pat` occurs in `s`, if any.
pub open spec fn first_occurrence_from(s: Seq<char>, pat: Seq<char>, lo: int) -> Option<int>
    decreases s.len() - lo,
{
    if lo + pat.len() > s.len() {
        None
    } else if pat.len() == 0 {
        Some(lo)
    } else if occurs_at(s, pat, lo) {
        Some(lo)
    } else {
        first_occurrence_from(s, pat, lo + 1)
    }
}

/// The greatest index in `[lo, hi]` where `pat` occurs in `s`, if any.
pub open spec fn last_occurrence_in(s: Seq<char>, pat: Seq<char>, lo: int, hi: int) -> Option<int>
    decreases hi - lo + 1,
{
    if hi < lo {
        None
    } else if occurs_at(s, pat, hi) {
        Some(hi)
    } else {
        last_occurrence_in(s, pat, lo, hi - 1)
    }
}

/// The greatest index at or after `lo` where `pat` occurs in `s`, if any.
pub open spec fn last_occurrence_from(s: Seq<char>, pat: Seq<char>, lo: int) -> Option<int> {
    last_occurrence_in(s, pat, lo, s.len() - pat.len())
}

pub proof fn lemma_first_occurrence_from(s: Seq<char>, pat: Seq<char>, lo: int)
    requires
        0 <= lo,
    ensures
        match first_occurrence_from(s, pat, lo) {
            Some(i) => lo <= i && occurs_at(s, pat, i) && forall|j: int|
                lo <= j < i ==> !occurs_at(s, pat, j),
            None => forall|j: int| lo <= j ==> !occurs_at(s, pat, j),
        },
    decreases s.len() - lo,
{
    if lo + pat.len() > s.len() {
    } else if pat.len() == 0 {
        assert(s.subrange(lo, lo + pat.len() as int) =~= pat);
    } else if occurs_at(s, pat, lo) {
    } else {
        lemma_first_occurrence_from(s, pat, lo + 1);
    }
}

pub proof fn lemma_last_occurrence_in(s: Seq<char>, pat: Seq<char>, lo: int, hi: int)
    requires
        hi + pat.len() <= s.len(),
    ensures
        match last_occurrence_in(s, pat, lo, hi) {
            Some(i) => lo <= i <= hi && occurs_at(s, pat, i) && forall|j: int|
                i < j <= hi ==> !occurs_at(s, pat, j),
            None => forall|j: int| lo <= j <= hi ==> !occurs_at(s, pat, j),
        },
    decreases hi - lo + 1,
{
    if hi < lo {
    } else if occurs_at(s, pat, hi) {
    } else {
        lemma_last_occurrence_in(s, pat, lo, hi - 1);
    }
}

/// Past `s.len() - pat.len()` there is no room for an occurrence, so the
/// bounded search characterizes the unbounded one.
pub proof fn lemma_last_occurrence_from(s: Seq<char>, pat: Seq<char>, lo: int)
    ensures
        match last_occurrence_from(s, pat, lo) {
            Some(i) => lo <= i && occurs_at(s, pat, i) && forall|j: int|
                j > i ==> !occurs_at(s, pat, j),
            None => forall|j: int| lo <= j ==> !occurs_at(s, pat, j),
        },
{
    lemma_last_occurrence_in(s, pat, lo, s.len() - pat.len());
}

/// `s` with `ins` inserted at position `at`, as a sequence.
pub open spec fn insert_seq(s: Seq<char>, at: int, ins: Seq<char>) -> Seq<char> {
    s.take(at) + ins + s.skip(at)
}

/// Characters below the insertion point keep their index; those at or above
/// it shift up by the length of the insertion.
pub proof fn lemma_insert_indexing(s: Seq<char>, at: int, ins: Seq<char>)
    requires
        0 <= at <= s.len(),
    ensures
        insert_seq(s, at, ins).len() == s.len() + ins.len(),
        forall|j: int| 0 <= j < at ==> insert_seq(s, at, ins)[j] == s[j],
        forall|j: int| 0 <= j < ins.len() ==> insert_seq(s, at, ins)[at + j] == ins[j],
        forall|j: int| at <= j < s.len() ==> insert_seq(s, at, ins)[j + ins.len()] == s[j],
{
}

/// How occurrences travel across an insertion: those wholly before the
/// insertion point stay, those at or after it shift by the inserted length,
/// and in both regions nothing appears that was not already there.
pub proof fn lemma_occurs_across_insert(s: Seq<char>, at: int, ins: Seq<char>, pat: Seq<char>, i: int)
    requires
        0 <= at <= s.len(),
    ensures
        occurs_at(s, pat, i) && i + pat.len() <= at ==> occurs_at(insert_seq(s, at, ins), pat, i),
        occurs_at(s, pat, i) && at <= i ==> occurs_at(insert_seq(s, at, ins), pat, i + ins.len()),
        occurs_at(insert_seq(s, at, ins), pat, i) && i + pat.len() <= at ==> occurs_at(s, pat, i),
        occurs_at(insert_seq(s, at, ins), pat, i) && at + ins.len() <= i ==> occurs_at(
            s,
            pat,
            i - ins.len(),
        ),
{
    let t = insert_seq(s, at, ins);
    lemma_insert_indexing(s, at, ins);
    if occurs_at(s, pat, i) && i + pat.len() <= at {
        assert forall|k: int| 0 <= k < pat.len() implies t.subrange(i, i + pat.len() as int)[k]
            == pat[k] by {
            assert(s.subrange(i, i + pat.len() as int)[k] == pat[k]);
        }
        assert(t.subrange(i, i + pat.len() as int) =~= pat);
    }
    if occurs_at(s, pat, i) && at <= i {
        let i2 = i + ins.len() as int;
        assert forall|k: int| 0 <= k < pat.len() implies t.subrange(i2, i2 + pat.len() as int)[k]
            == pat[k] by {
            assert(t[(i + k) + ins.len()] == s[i + k]);
            assert(s.subrange(i, i + pat.len() as int)[k] == pat[k]);
        }
        assert(t.subrange(i2, i2 + pat.len() as int) =~= pat);
    }
    if occurs_at(t, pat, i) && i + pat.len() <= at {
        assert forall|k: int| 0 <= k < pat.len() implies s.subrange(i, i + pat.len() as int)[k]
            == pat[k] by {
            assert(t.subrange(i, i + pat.len() as int)[k] == pat[k]);
        }
        assert(s.subrange(i, i + pat.len() as int) =~= pat);
    }
    if occurs_at(t, pat, i) && at + ins.len() <= i {
        let i2 = i - ins.len() as int;
        assert forall|k: int| 0 <= k < pat.len() implies s.subrange(i2, i2 + pat.len() as int)[k]
            == pat[k] by {
            assert(t[(i2 + k) + ins.len()] == s[i2 + k]);
            assert(t.subrange(i, i + pat.len() as int)[k] == pat[k]);
        }
        assert(s.subrange(i2, i2 + pat.len() as int) =~= pat);
    }
}

/// Whether `pat` occurs in `s` at index `i`, checked character by character.
pub fn matches_at(s: &Vec<char>, pat: &Vec<char>, i: usize) -> (r: bool)
    requires
        i + pat@.len() <= s@.len(),
    ensures
        r == occurs_at(s@, pat@, i as int),
{
    let slen = s.len();
    let mut j: usize = 0;
    while j < pat.len()
        invariant
            slen == s@.len(),
            i + pat@.len() <= s@.len(),
            j <= pat@.len(),
            forall|k: int| 0 <= k < j ==> s@[i + k] == pat@[k],
        decreases pat@.len() - j,
    {
        if s[i + j] != pat[j] {
            assert(!occurs_at(s@, pat@, i as int)) by {
                if occurs_at(s@, pat@, i as int) {
                    assert(s@.subrange(i as int, i + pat@.len() as int)[j as int] == pat@[j as int]);
                }
            }
            return false;
        }
        j += 1;
    }
    assert(s@.subrange(i as int, i + pat@.len() as int) =~= pat@);
    true
}

/// The least index at or after `lo` where `pat` occurs in `s`, if any.
pub fn find_from(s: &Vec<char>, pat: &Vec<char>, lo: usize) -> (r: Option<usize>)
    ensures
        match r {
            Some(i) => first_occurrence_from(s@, pat@, lo as int) == Some(i as int),
            None => first_occurrence_from(s@, pat@, lo as int) is None,
        },
{
    if pat.len() > s.len() {
        return None;
    }
    if pat.len() == 0 {
        return if lo <= s.len() {
            Some(lo)
        } else {
            None
        };
    }
    let mut i: usize = lo;
    while i <= s.len() - pat.len()
        invariant
            1 <= pat@.len() <= s@.len(),
            lo <= i,
            first_occurrence_from(s@, pat@, lo as int) == first_occurrence_from(
                s@,
                pat@,
                i as int,
            ),
        decreases s@.len() - i,
    {
        if matches_at(s, pat, i) {
            return Some(i);
        }
        i += 1;
    }
    None
}

/// The greatest index at or after `lo` where `pat` occurs in `s`, if any.
pub fn rfind_from(s: &Vec<char>, pat: &Vec<char>, lo: usize) -> (r: Option<usize>)
    ensures
        match r {
            Some(i) => last_occurrence_from(s@, pat@, lo as int) == Some(i as int),
            None => last_occurrence_from(s@, pat@, lo as int) is None,
        },
{
    if pat.len() > s.len() {
        assert(last_occurrence_in(s@, pat@, lo as int, s@.len() - pat@.len()) is None);
        return None;
    }
    if pat.len() == 0 {
        if lo <= s.len() {
            assert(s@.subrange(s@.len() as int, s@.len() as int) =~= pat@);
            return Some(s.len());
        } else {
            return None;
        }
    }
    let mut i: usize = s.len() - pat.len() + 1;
    loop
        invariant
            1 <= pat@.len() <= s@.len(),
            i + pat@.len() <= s@.len() + 1,
            last_occurrence_from(s@, pat@, lo as int) == last_occurrence_in(
                s@,
                pat@,
                lo as int,
                i - 1,
            ),
        decreases i,
    {
        if i <= lo {
            return None;
        }
        i -= 1;
        if matches_at(s, pat, i) {
            return Some(i);
        }
    }
}

/// `pat` occurs somewhere in `s`.
pub fn contains_sub(s: &Vec<char>, pat: &Vec<char>) -> (r: bool)
    ensures
        r == contains_seq(s@, pat@),
{
    proof {
        lemma_first_occurrence_from(s@, pat@, 0);
    }
    match find_from(s, pat, 0) {
        Some(i) => {
            assert(occurs_at(s@, pat@, i as int));
            true
        },
        None => {
            assert(!contains_seq(s@, pat@)) by {
                if contains_seq(s@, pat@) {
                    let w = choose|w: int| occurs_at(s@, pat@, w);
                    assert(!occurs_at(s@, pat@, w));
                }
            }
            false
        },
    }
}

/// Appends every character of `xs` to `out`.
pub fn push_all(out: &mut Vec<char>, xs: &Vec<char>)
    ensures
        final (out)@ == old(out)@ + xs@,
{
    let mut k: usize = 0;
    while k < xs.len()
        invariant
            k <= xs@.len(),
            out@ == old(out)@ + xs@.take(k as int),
        decreases xs@.len() - k,
    {
        out.push(xs[k]);
        assert(old(out)@ + xs@.take(k as int) + seq![xs@[k as int]] =~= old(out)@ + xs@.take(
            k as int + 1,
        ));
        k += 1;
    }
    assert(old(out)@ + xs@.take(xs@.len() as int) =~= old(out)@ + xs@);
}

/// A copy of `s[i..j]`.
pub fn subvec(s: &Vec<char>, i: usize, j: usize) -> (r: Vec<char>)
    requires
        i <= j <= s@.len(),
    ensures
        r@ == s@.subrange(i as int, j as int),
{
    let mut r: Vec<char> = Vec::new();
    let mut k: usize = i;
    while k < j
        invariant
            i <= k <= j <= s@.len(),
            r@ == s@.subrange(i as int, k as int),
        decreases j - k,
    {
        r.push(s[k]);
        assert(s@.subrange(i as int, k as int) + seq![s@[k as int]] =~= s@.subrange(
            i as int,
            k as int + 1,
        ));
        k += 1;
    }
    r
}

/// `s` with `ins` inserted at position `at`.
pub fn insert_chars(s: &Vec<char>, at: usize, ins: &Vec<char>) -> (r: Vec<char>)
    requires
        at <= s@.len(),
    ensures
        r@ == s@.take(at as int) + ins@ + s@.skip(at as int),
{
    let mut r = subvec(s, 0, at);
    push_all(&mut r, ins);
    let tail = subvec(s, at, s.len());
    push_all(&mut r, &tail);
    assert(s@.subrange(0, at as int) =~= s@.take(at as int));
    assert(s@.subrange(at as int, s@.len() as int) =~= s@.skip(at as int));
    r
}

/// Literal replace-all, scanning left to right over non-overlapping matches.
pub open spec fn replace_all_seq(s: Seq<char>, from: Seq<char>, to: Seq<char>) -> Seq<char>
    decreases s.len(),
{
    if from.len() == 0 {
        s
    } else if s.len() < from.len() {
        s
    } else if s.subrange(0, from.len() as int) == from {
        to + replace_all_seq(s.skip(from.len() as int), from, to)
    } else {
        seq![s[0]] + replace_all_seq(s.skip(1), from, to)
    }
}

proof fn lemma_replace_all_step(s: Seq<char>, from: Seq<char>, to: Seq<char>, i: int)
    requires
        from.len() >= 1,
        0 <= i < s.len(),
    ensures
        occurs_at(s, from, i) ==> replace_all_seq(s.skip(i), from, to) == to + replace_all_seq(
            s.skip(i + from.len()),
            from,
            to,
        ),
        !occurs_at(s, from, i) ==> replace_all_seq(s.skip(i), from, to) == seq![s[i]]
            + replace_all_seq(s.skip(i + 1), from, to),
{
    let t = s.skip(i);
    if occurs_at(s, from, i) {
        assert(t.subrange(0, from.len() as int) =~= s.subrange(i, i + from.len() as int));
        assert(t.skip(from.len() as int) =~= s.skip(i + from.len()));
    } else {
        if t.len() < from.len() {
            assert(replace_all_seq(t, from, to) == t);
            assert(t.skip(1) =~= s.skip(i + 1));
            assert(replace_all_seq(s.skip(i + 1), from, to) == s.skip(i + 1)) by {
                assert(s.skip(i + 1).len() < from.len());
            }
            assert(seq![s[i]] + s.skip(i + 1) =~= t);
        } else {
            assert(t.subrange(0, from.len() as int) != from) by {
                if t.subrange(0, from.len() as int) == from {
                    assert(t.subrange(0, from.len() as int) =~= s.subrange(
                        i,
                        i + from.len() as int,
                    ));
                }
            }
            assert(t[0] == s[i]);
            assert(t.skip(1) =~= s.skip(i + 1));
        }
    }
}

/// `s` with every non-overlapping occurrence of `from` replaced by `to`,
/// scanning left to right. An empty `from` leaves `s` unchanged.
pub fn replace_all(s: &Vec<char>, from: &Vec<char>, to: &Vec<char>) -> (r: Vec<char>)
    ensures
        r@ == replace_all_seq(s@, from@, to@),
{
    if from.len() == 0 {
        let r = subvec(s, 0, s.len());
        assert(s@.subrange(0, s@.len() as int) =~= s@);
        return r;
    }
    let mut out: Vec<char> = Vec::new();
    let mut i: usize = 0;
    assert(s@.skip(0) =~= s@);
    assert(out@ + replace_all_seq(s@, from@, to@) =~= replace_all_seq(s@, from@, to@));
    while i < s.len()
        invariant
            from@.len() >= 1,
            i <= s@.len(),
            replace_all_seq(s@, from@, to@) == out@ + replace_all_seq(
                s@.skip(i as int),
                from@,
                to@,
            ),
        decreases s@.len() - i,
    {
        if from.len() <= s.len() - i && matches_at(s, from, i) {
            proof {
                lemma_replace_all_step(s@, from@, to@, i as int);
                assert((out@ + to@) + replace_all_seq(s@.skip(i + from@.len()), from@, to@) =~= out@
                    + (to@ + replace_all_seq(s@.skip(i + from@.len()), from@, to@)));
            }
            push_all(&mut out, to);
            i += from.len();
        } else {
            proof {
                lemma_replace_all_step(s@, from@, to@, i as int);
                assert(!occurs_at(s@, from@, i as int));
                assert((out@ + seq![s@[i as int]]) + replace_all_seq(s@.skip(i + 1), from@, to@)
                    =~= out@ + (seq![s@[i as int]] + replace_all_seq(s@.skip(i + 1), from@, to@)));
            }
            out.push(s[i]);
            i += 1;
        }
    }
    assert(s@.skip(s@.len() as int) =~= Seq::<char>::empty());
    assert(replace_all_seq(Seq::<char>::empty(), from@, to@) == Seq::<char>::empty());
    assert(out@ + Seq::<char>::empty() =~= out@);
    out
}

/// Every character of `s`, in order.
pub fn chars_of(s: &str) -> (r: Vec<char>)
    ensures
        r@ == s@,
{
    let n = s.unicode_len();
    let mut r: Vec<char> = Vec::new();
    let mut i: usize = 0;
    while i < n
        invariant
            n == s@.len(),
            i <= n,
            r@ == s@.take(i as int),
        decreases n - i,
    {
        r.push(s.get_char(i));
        assert(s@.take(i as int) + seq![s@[i as int]] =~= s@.take(i as int + 1));
        i += 1;
    }
    assert(s@.take(n as int) =~= s@);
    r
}

/// Whether two strings spell the same characters.
pub fn str_eq(a: &str, b: &str) -> (r: bool)
    ensures
        r == (a@ == b@),
{
    let av = chars_of(a);
    let bv = chars_of(b);
    if av.len() != bv.len() {
        return false;
    }
    let mut i: usize = 0;
    while i < av.len()
        invariant
            av@ == a@,
            bv@ == b@,
            av@.len() == bv@.len(),
            i <= av@.len(),
            forall|k: int| 0 <= k < i ==> av@[k] == bv@[k],
        decreases av@.len() - i,
    {
        if av[i] != bv[i] {
            return false;
        }
        i += 1;
    }
    assert(a@ =~= b@);
    true
}

/// Equal sequences with the same thing appended stay equal, and conversely:
/// a common prefix cancels.
pub proof fn lemma_concat_cancel_left(a: Seq<char>, x: Seq<char>, y: Seq<char>)
    requires
        a + x == a + y,
    ensures
        x == y,
{
    assert((a + x).len() == a.len() + x.len());
    assert((a + y).len() == a.len() + y.len());
    assert(x.len() == y.len());
    assert forall|k: int| 0 <= k < x.len() implies x[k] == y[k] by {
        assert((a + x)[a.len() + k] == x[k]);
        assert((a + y)[a.len() + k] == y[k]);
    }
    assert(x =~= y);
}

/// Relies on `String::push`: appends exactly the given character.
#[verifier::external_body]
fn push_char(s: &mut String, c: char)
    ensures
        final (s)@ == old(s)@ + seq![c],
{
    s.push(c);
}

/// The string spelling out exactly the characters of `v`.
pub fn string_of(v: &Vec<char>) -> (r: String)
    ensures
        r@ == v@,
{
    let mut r = String::new();
    let mut i: usize = 0;
    while i < v.len()
        invariant
            i <= v@.len(),
            r@ == v@.take(i as int),
        decreases v@.len() - i,
    {
        push_char(&mut r, v[i]);
        assert(v@.take(i as int) + seq![v@[i as int]] =~= v@.take(i as int + 1));
        i += 1;
    }
    assert(v@.take(v@.len() as int) =~= v@);
    r
}

} // verus!
