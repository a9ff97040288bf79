//! Normalization of user-submitted names.
//!
//! A name is stored in Unicode Normalization Form D with leading and
//! trailing whitespace removed, so that duplicate detection compares
//! like with like.  Decomposition is delegated to an outside crate;
//! the trimming, and the idempotence of the whole, are proved here.

use vstd::prelude::*;

use unicode_normalization::UnicodeNormalization;

verus! {

use vstd::string::StrSliceExecFns;
use vstd::string::StringExecFns;

/// What `unicode_normalization`'s `nfd` returns for `s`: the canonical
/// decomposition (Unicode Normalization Form D) of the text.
pub uninterp spec fn nfd_seq(s: Seq<char>) -> Seq<char>;

/// What `char::is_whitespace` returns for `c`: whether `c` has the
/// Unicode `White_Space` property.
pub uninterp spec fn white_space(c: char) -> bool;

/// Relies on `char::is_whitespace` from std, a pure function of the
/// character alone.
pub assume_specification[ char::is_whitespace ](c: char) -> (r: bool)
    ensures
        r == white_space(c),
;

/// Relies on `unicode_normalization::UnicodeNormalization::nfd`, which
/// returns the input in Unicode Normalization Form D.  Per UAX #15 the
/// normalization forms are closed under substringing, so every
/// contiguous part of the result is itself in NFD.
#[verifier::external_body]
fn decompose_nfd(s: &str) -> (r: String)
    ensures
        r@ == nfd_seq(s@),
        forall|i: int, j: int|
            0 <= i <= j <= r@.len() ==> nfd_seq(r@.subrange(i, j)) == r@.subrange(i, j),
{
    s.nfd().collect()
}

/// How many leading characters of `s` are whitespace.
pub open spec fn ws_prefix_len(s: Seq<char>) -> nat
    decreases s.len(),
{
    if s.len() == 0 {
        0
    } else if white_space(s[0]) {
        1 + ws_prefix_len(s.drop_first())
    } else {
        0
    }
}

/// How many trailing characters of `s` are whitespace.
pub open spec fn ws_suffix_len(s: Seq<char>) -> nat
    decreases s.len(),
{
    if s.len() == 0 {
        0
    } else if white_space(s.last()) {
        1 + ws_suffix_len(s.drop_last())
    } else {
        0
    }
}

/// `s` without its leading and trailing whitespace.
pub open spec fn trim_seq(s: Seq<char>) -> Seq<char> {
    if ws_prefix_len(s) == s.len() {
        Seq::empty()
    } else {
        s.subrange(ws_prefix_len(s) as int, s.len() - ws_suffix_len(s))
    }
}

/// The stored form of a name: decomposed, then trimmed.
pub open spec fn normal_seq(s: Seq<char>) -> Seq<char> {
    trim_seq(nfd_seq(s))
}

/// The leading whitespace run is whitespace, and ends at the first
/// non-whitespace character.
pub proof fn lemma_ws_prefix(s: Seq<char>)
    ensures
        ws_prefix_len(s) <= s.len(),
        forall|i: int| 0 <= i < ws_prefix_len(s) ==> white_space(s[i]),
        ws_prefix_len(s) < s.len() ==> !white_space(s[ws_prefix_len(s) as int]),
    decreases s.len(),
{
    if s.len() > 0 && white_space(s[0]) {
        lemma_ws_prefix(s.drop_first());
        assert forall|i: int| 0 <= i < ws_prefix_len(s) implies white_space(s[i]) by {
            if i > 0 {
                assert(s.drop_first()[i - 1] == s[i]);
            }
        }
    }
}

/// The trailing whitespace run is whitespace, and starts after the
/// last non-whitespace character.
pub proof fn lemma_ws_suffix(s: Seq<char>)
    ensures
        ws_suffix_len(s) <= s.len(),
        forall|i: int| s.len() - ws_suffix_len(s) <= i < s.len() ==> white_space(s[i]),
        ws_suffix_len(s) < s.len() ==> !white_space(s[s.len() - ws_suffix_len(s) - 1]),
    decreases s.len(),
{
    if s.len() > 0 && white_space(s.last()) {
        lemma_ws_suffix(s.drop_last());
        assert forall|i: int| s.len() - ws_suffix_len(s) <= i < s.len() implies white_space(
            s[i],
        ) by {
            if i < s.len() - 1 {
                assert(s.drop_last()[i] == s[i]);
            }
        }
    }
}

/// A scan that stops at the first non-whitespace character finds
/// exactly the leading whitespace run.
proof fn lemma_ws_prefix_scan(s: Seq<char>, a: int)
    requires
        0 <= a <= s.len(),
        forall|i: int| 0 <= i < a ==> white_space(s[i]),
        a < s.len() ==> !white_space(s[a]),
    ensures
        a == ws_prefix_len(s),
    decreases s.len(),
{
    if s.len() > 0 && white_space(s[0]) {
        assert(a > 0);
        let t = s.drop_first();
        assert forall|i: int| 0 <= i < a - 1 implies white_space(t[i]) by {
            assert(t[i] == s[i + 1]);
        }
        lemma_ws_prefix_scan(t, a - 1);
    }
}

/// A scan that stops at the last non-whitespace character finds
/// exactly the trailing whitespace run.
proof fn lemma_ws_suffix_scan(s: Seq<char>, b: int)
    requires
        0 <= b <= s.len(),
        forall|i: int| b <= i < s.len() ==> white_space(s[i]),
        b > 0 ==> !white_space(s[b - 1]),
    ensures
        s.len() - b == ws_suffix_len(s),
    decreases s.len(),
{
    if s.len() > 0 && white_space(s.last()) {
        assert(b < s.len());
        let t = s.drop_last();
        lemma_ws_suffix_scan(t, b);
    }
}

/// When anything remains after trimming, the two whitespace runs do
/// not overlap.
pub proof fn lemma_trim_bounds(s: Seq<char>)
    requires
        ws_prefix_len(s) < s.len(),
    ensures
        ws_prefix_len(s) + ws_suffix_len(s) < s.len(),
{
    lemma_ws_prefix(s);
    lemma_ws_suffix(s);
    let a = ws_prefix_len(s) as int;
    if a >= s.len() - ws_suffix_len(s) {
        assert(white_space(s[a]));
    }
}

/// Trimming removes only whitespace, and only at the ends: the result
/// is the contiguous interior of `s` between its leading and trailing
/// whitespace runs, both of which are entirely whitespace.
pub proof fn lemma_trim_strips_only_whitespace(s: Seq<char>)
    ensures
        forall|i: int| 0 <= i < ws_prefix_len(s) ==> white_space(s[i]),
        forall|i: int| s.len() - ws_suffix_len(s) <= i < s.len() ==> white_space(s[i]),
        ws_prefix_len(s) < s.len() ==> trim_seq(s) == s.subrange(
            ws_prefix_len(s) as int,
            s.len() - ws_suffix_len(s),
        ),
        ws_prefix_len(s) == s.len() ==> trim_seq(s) == Seq::<char>::empty(),
{
    lemma_ws_prefix(s);
    lemma_ws_suffix(s);
}

/// Trimming is idempotent.
pub proof fn lemma_trim_idempotent(s: Seq<char>)
    ensures
        trim_seq(trim_seq(s)) == trim_seq(s),
{
    lemma_ws_prefix(s);
    lemma_ws_suffix(s);
    if ws_prefix_len(s) == s.len() {
        assert(ws_prefix_len(Seq::<char>::empty()) == 0);
    } else {
        lemma_trim_bounds(s);
        let a = ws_prefix_len(s) as int;
        let b = s.len() - ws_suffix_len(s);
        let t = s.subrange(a, b);
        assert(!white_space(t[0]));
        assert(t.last() == s[b - 1]);
        assert(!white_space(t.last()));
        assert(ws_prefix_len(t) == 0);
        assert(ws_suffix_len(t) == 0) by {
            if t.len() > 0 && white_space(t.last()) {
            }
        }
        assert(trim_seq(t) =~= t);
    }
}

/// The index of the first non-whitespace character, or the length if
/// there is none.
fn first_non_ws(s: &str, n: usize) -> (a: usize)
    requires
        n == s@.len(),
    ensures
        a == ws_prefix_len(s@),
{
    let mut a: usize = 0;
    let mut scanning = true;
    while scanning
        invariant
            a <= n,
            n == s@.len(),
            forall|i: int| 0 <= i < a ==> white_space(s@[i]),
            !scanning ==> (a == n || !white_space(s@[a as int])),
        decreases n - a + (if scanning { 1int } else { 0int }),
    {
        if a < n {
            if s.get_char(a).is_whitespace() {
                a = a + 1;
            } else {
                scanning = false;
            }
        } else {
            scanning = false;
        }
    }
    proof {
        lemma_ws_prefix_scan(s@, a as int);
    }
    a
}

/// The index just past the last non-whitespace character, or zero if
/// there is none.
fn last_non_ws(s: &str, n: usize) -> (b: usize)
    requires
        n == s@.len(),
    ensures
        n - b == ws_suffix_len(s@),
        b <= n,
{
    let mut b: usize = n;
    let mut scanning = true;
    while scanning
        invariant
            b <= n,
            n == s@.len(),
            forall|i: int| b <= i < n ==> white_space(s@[i]),
            !scanning ==> (b == 0 || !white_space(s@[b - 1])),
        decreases b + (if scanning { 1int } else { 0int }),
    {
        if b > 0 {
            if s.get_char(b - 1).is_whitespace() {
                b = b - 1;
            } else {
                scanning = false;
            }
        } else {
            scanning = false;
        }
    }
    proof {
        lemma_ws_suffix_scan(s@, b as int);
    }
    b
}

/// `s` without its leading and trailing whitespace.
fn trim_text(s: &str) -> (r: String)
    ensures
        r@ == trim_seq(s@),
{
    let n = s.unicode_len();
    let a = first_non_ws(s, n);
    if a == n {
        String::new()
    } else {
        proof {
            lemma_ws_prefix(s@);
            lemma_trim_bounds(s@);
        }
        let b = last_non_ws(s, n);
        let piece = s.substring_char(a, b);
        String::from_str(piece)
    }
}

/// Normalizes a name: decomposes it into Unicode Normalization Form D
/// and strips leading and trailing whitespace.  The result is a fixed
/// point: normalizing it again changes nothing.
pub fn normalize_name(name: &str) -> (r: String)
    ensures
        r@ == normal_seq(name@),
        normal_seq(r@) == r@,
{
    let decomposed = decompose_nfd(name);
    let r = trim_text(decomposed.as_str());
    proof {
        let d = decomposed@;
        lemma_ws_prefix(d);
        if ws_prefix_len(d) == d.len() {
            assert(r@ =~= d.subrange(0, 0));
            assert(nfd_seq(r@) == r@);
        } else {
            lemma_trim_bounds(d);
            assert(nfd_seq(r@) == r@);
        }
        lemma_trim_idempotent(d);
    }
    r
}

/// Normalizes an optional name in the same way.
pub fn normalize_option(value: Option<String>) -> (r: Option<String>)
    ensures
        match value {
            Some(s) => r matches Some(t) && t@ == normal_seq(s@) && normal_seq(t@) == t@,
            None => r is None,
        },
{
    match value {
        Some(s) => Some(normalize_name(s.as_str())),
        None => None,
    }
}

} // verus!
