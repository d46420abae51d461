//! Byte-sequence helpers shared across the crate: whitespace trimming,
//! blank detection, NUL-splitting and disc-name sanitisation.
//!
//! Device paths, volume labels and user input are treated as raw bytes, not
//! text: a medium's label field and a platform path need not be valid UTF-8.

use vstd::prelude::*;

verus! {

/// A byte that counts as whitespace: horizontal tab through carriage return,
/// and the space character.
pub open spec fn is_space(b: u8) -> bool {
    9 <= b <= 13 || b == 32
}

/// Every byte of `s` is whitespace; an empty sequence is blank.
pub open spec fn is_blank(s: Seq<u8>) -> bool {
    forall|i: int| 0 <= i < s.len() ==> is_space(#[trigger] s[i])
}

/// `s` with leading whitespace removed.
pub open spec fn trim_start(s: Seq<u8>) -> Seq<u8>
    decreases s.len(),
{
    if s.len() == 0 {
        s
    } else if is_space(s[0]) {
        trim_start(s.drop_first())
    } else {
        s
    }
}

/// `s` with trailing whitespace removed.
pub open spec fn trim_end(s: Seq<u8>) -> Seq<u8>
    decreases s.len(),
{
    if s.len() == 0 {
        s
    } else if is_space(s[s.len() - 1]) {
        trim_end(s.drop_last())
    } else {
        s
    }
}

/// `s` with whitespace removed from both ends.
pub open spec fn trim(s: Seq<u8>) -> Seq<u8> {
    trim_end(trim_start(s))
}

/// The prefix of `s` before its first NUL byte; all of `s` if it has none.
pub open spec fn before_nul(s: Seq<u8>) -> Seq<u8>
    decreases s.len(),
{
    if s.len() == 0 {
        s
    } else if s[0] == 0 {
        Seq::<u8>::empty()
    } else {
        seq![s[0]] + before_nul(s.drop_first())
    }
}

/// `s` with every space byte replaced by an underscore.
pub open spec fn underscored(s: Seq<u8>) -> Seq<u8> {
    Seq::new(s.len(), |i: int| if s[i] == 32 { 95u8 } else { s[i] })
}

/// Whether `b` is whitespace, decided at run time.
pub fn is_space_byte(b: u8) -> (r: bool)
    ensures
        r == is_space(b),
{
    (9 <= b && b <= 13) || b == 32
}

/// Whether `s` is blank, decided at run time.
pub fn is_blank_bytes(s: &Vec<u8>) -> (r: bool)
    ensures
        r == is_blank(s@),
{
    let n = s.len();
    let mut i: usize = 0;
    while i < n
        invariant
            0 <= i <= n,
            n == s@.len(),
            forall|j: int| 0 <= j < i ==> is_space(#[trigger] s@[j]),
        decreases n - i,
    {
        if !is_space_byte(s[i]) {
            return false;
        }
        i += 1;
    }
    true
}

/// Dropping a whitespace prefix does not change `trim_start`.
proof fn lemma_trim_start_skip(s: Seq<u8>, k: int)
    requires
        0 <= k <= s.len(),
        forall|i: int| 0 <= i < k ==> is_space(#[trigger] s[i]),
    ensures
        trim_start(s) == trim_start(s.subrange(k, s.len() as int)),
    decreases k,
{
    if k > 0 {
        assert(s.drop_first() =~= s.subrange(1, s.len() as int));
        let t = s.subrange(1, s.len() as int);
        lemma_trim_start_skip(t, k - 1);
        assert(t.subrange(k - 1, t.len() as int) =~= s.subrange(k, s.len() as int));
    } else {
        assert(s.subrange(0, s.len() as int) =~= s);
    }
}

/// Dropping a whitespace suffix does not change `trim_end`.
proof fn lemma_trim_end_skip(s: Seq<u8>, k: int)
    requires
        0 <= k <= s.len(),
        forall|i: int| k <= i < s.len() ==> is_space(#[trigger] s[i]),
    ensures
        trim_end(s) == trim_end(s.subrange(0, k)),
    decreases s.len() - k,
{
    if k < s.len() {
        assert(s.drop_last() =~= s.subrange(0, s.len() - 1));
        let t = s.subrange(0, s.len() - 1);
        lemma_trim_end_skip(t, k);
        assert(t.subrange(0, k) =~= s.subrange(0, k));
    } else {
        assert(s.subrange(0, s.len() as int) =~= s);
    }
}

/// A non-empty `trim_start` result begins with a non-whitespace byte.
proof fn lemma_trim_start_head(s: Seq<u8>)
    requires
        trim_start(s).len() > 0,
    ensures
        !is_space(trim_start(s)[0]),
    decreases s.len(),
{
    if s.len() > 0 && is_space(s[0]) {
        lemma_trim_start_head(s.drop_first());
    }
}

/// A non-empty `trim_end` result keeps the first byte of its input.
proof fn lemma_trim_end_head(s: Seq<u8>)
    requires
        trim_end(s).len() > 0,
    ensures
        s.len() > 0 && trim_end(s)[0] == s[0],
    decreases s.len(),
{
    if s.len() > 0 && is_space(s[s.len() - 1]) {
        lemma_trim_end_head(s.drop_last());
    }
}

/// `trim_start` erases exactly the blank sequences.
proof fn lemma_trim_start_empty_iff_blank(s: Seq<u8>)
    ensures
        (trim_start(s).len() == 0) <==> is_blank(s),
    decreases s.len(),
{
    if s.len() > 0 && is_space(s[0]) {
        lemma_trim_start_empty_iff_blank(s.drop_first());
        if trim_start(s).len() == 0 {
            assert forall|i: int| 0 <= i < s.len() implies is_space(#[trigger] s[i]) by {
                if i > 0 {
                    assert(s.drop_first()[i - 1] == s[i]);
                }
            }
        } else {
            assert(!is_blank(s.drop_first()));
            let j = choose|j: int| 0 <= j < s.drop_first().len()
                && !is_space(s.drop_first()[j]);
            assert(s[j + 1] == s.drop_first()[j]);
            assert(!is_blank(s));
        }
    }
}

/// Trimming a sequence yields either an empty result (exactly when the input
/// is blank) or a result that is itself not blank.
pub proof fn lemma_trim_blankness(s: Seq<u8>)
    ensures
        (trim(s).len() == 0) <==> is_blank(s),
        trim(s).len() > 0 ==> !is_blank(trim(s)),
{
    lemma_trim_start_empty_iff_blank(s);
    let t = trim_start(s);
    if t.len() == 0 {
        assert(trim(s) == trim_end(t));
        assert(trim_end(t).len() == 0);
    } else {
        lemma_trim_start_head(s);
        // trim_end only removes trailing whitespace, so a non-empty input with a
        // non-whitespace head either empties completely or keeps that head.
        if trim(s).len() == 0 {
            lemma_trim_end_empty_blank(t);
            assert(is_space(t[0]));
            assert(false);
        } else {
            lemma_trim_end_head(t);
            assert(trim(s)[0] == t[0]);
            assert(!is_space(trim(s)[0]));
            assert(!is_blank(trim(s)));
        }
    }
}

/// An emptied `trim_end` input was blank.
proof fn lemma_trim_end_empty_blank(s: Seq<u8>)
    requires
        trim_end(s).len() == 0,
    ensures
        is_blank(s),
    decreases s.len(),
{
    if s.len() > 0 {
        assert(is_space(s[s.len() - 1]));
        lemma_trim_end_empty_blank(s.drop_last());
        assert forall|i: int| 0 <= i < s.len() implies is_space(#[trigger] s[i]) by {
            if i < s.len() - 1 {
                assert(s.drop_last()[i] == s[i]);
            }
        }
    }
}

/// Trim whitespace from both ends of `s`.
pub fn trim_bytes(s: &Vec<u8>) -> (r: Vec<u8>)
    ensures
        r@ == trim(s@),
{
    let n = s.len();
    let mut lo: usize = 0;
    while lo < n && is_space_byte(s[lo])
        invariant
            0 <= lo <= n,
            n == s@.len(),
            forall|j: int| 0 <= j < lo ==> is_space(#[trigger] s@[j]),
        decreases n - lo,
    {
        lo += 1;
    }
    proof {
        lemma_trim_start_skip(s@, lo as int);
    }
    if lo == n {
        proof {
            assert(s@.subrange(lo as int, n as int) =~= Seq::<u8>::empty());
            assert(trim(s@) =~= Seq::<u8>::empty());
        }
        let r: Vec<u8> = Vec::new();
        proof {
            assert(r@ =~= trim(s@));
        }
        return r;
    }
    let ghost t = s@.subrange(lo as int, n as int);
    proof {
        assert(t[0] == s@[lo as int]);
        assert(trim_start(t) == t);
    }
    let mut hi: usize = n;
    while hi > lo + 1 && is_space_byte(s[hi - 1])
        invariant
            lo < hi <= n,
            n == s@.len(),
            !is_space(s@[lo as int]),
            forall|j: int| hi <= j < n ==> is_space(#[trigger] s@[j]),
        decreases hi,
    {
        hi -= 1;
    }
    // Either the loop stopped at a non-whitespace byte, or everything after
    // the first non-whitespace byte was whitespace and hi == lo + 1.
    proof {
        assert(!is_space(s@[hi - 1]));
        lemma_trim_end_skip(t, hi - lo);
        assert(t.subrange(0, (hi - lo) as int) =~= s@.subrange(lo as int, hi as int));
        let u = s@.subrange(lo as int, hi as int);
        assert(u[u.len() - 1] == s@[hi - 1]);
        assert(trim_end(u) == u);
        assert(trim(s@) == u);
    }
    let mut r: Vec<u8> = Vec::new();
    let mut i: usize = lo;
    while i < hi
        invariant
            lo <= i <= hi <= n,
            n == s@.len(),
            r@ =~= s@.subrange(lo as int, i as int),
        decreases hi - i,
    {
        r.push(s[i]);
        proof {
            assert(r@ =~= s@.subrange(lo as int, i + 1 as int));
        }
        i += 1;
    }
    proof {
        assert(r@ =~= s@.subrange(lo as int, hi as int));
    }
    r
}

/// A prefix with no NUL byte, cut at the first NUL (or at the end), is
/// exactly `before_nul`.
proof fn lemma_before_nul_prefix(s: Seq<u8>, k: int)
    requires
        0 <= k <= s.len(),
        forall|i: int| 0 <= i < k ==> s[i] != 0,
        k == s.len() || s[k] == 0,
    ensures
        before_nul(s) =~= s.subrange(0, k),
    decreases s.len(),
{
    if s.len() == 0 {
    } else if s[0] == 0 {
        assert(k == 0);
    } else {
        let t = s.drop_first();
        assert(t =~= s.subrange(1, s.len() as int));
        lemma_before_nul_prefix(t, k - 1);
        assert(before_nul(s) =~= seq![s[0]] + t.subrange(0, k - 1));
        assert(seq![s[0]] + t.subrange(0, k - 1) =~= s.subrange(0, k));
    }
}

/// The prefix of `s` before its first NUL byte.
pub fn prefix_before_nul(s: &Vec<u8>) -> (r: Vec<u8>)
    ensures
        r@ == before_nul(s@),
{
    let n = s.len();
    let mut k: usize = 0;
    while k < n && s[k] != 0
        invariant
            0 <= k <= n,
            n == s@.len(),
            forall|j: int| 0 <= j < k ==> s@[j] != 0,
        decreases n - k,
    {
        k += 1;
    }
    proof {
        lemma_before_nul_prefix(s@, k as int);
    }
    let mut r: Vec<u8> = Vec::new();
    let mut i: usize = 0;
    while i < k
        invariant
            0 <= i <= k <= n,
            n == s@.len(),
            r@ =~= s@.subrange(0, i as int),
        decreases k - i,
    {
        r.push(s[i]);
        proof {
            assert(r@ =~= s@.subrange(0, i + 1 as int));
        }
        i += 1;
    }
    proof {
        assert(r@ =~= s@.subrange(0, k as int));
    }
    r
}

/// Replace every space byte of `s` by an underscore.
pub fn underscore_spaces(s: &Vec<u8>) -> (r: Vec<u8>)
    ensures
        r@ == underscored(s@),
{
    let n = s.len();
    let mut r: Vec<u8> = Vec::new();
    let mut i: usize = 0;
    while i < n
        invariant
            0 <= i <= n,
            n == s@.len(),
            r@.len() == i,
            forall|j: int| 0 <= j < i ==> r@[j] == underscored(s@)[j],
        decreases n - i,
    {
        let b = s[i];
        if b == 32 {
            r.push(95);
        } else {
            r.push(b);
        }
        i += 1;
    }
    proof {
        assert(r@ =~= underscored(s@));
    }
    r
}

} // verus!
