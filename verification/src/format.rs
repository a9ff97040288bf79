//! Audio formats: a `(container, codec)` pair and its textual form
//! `container/codec`.

use vstd::prelude::*;

verus! {

use vstd::string::StrSliceExecFns;
use vstd::string::StringExecFns;

/// A `(container, codec)` pair describing a decoded media stream.
#[derive(Debug, PartialEq)]
pub struct AudioFormat {
    pub container: String,
    pub codec: String,
}

/// Returned when a textual form does not have exactly two
/// `/`-separated parts.
#[derive(Debug, PartialEq, Eq)]
pub struct ParseError;

/// Holds when `i` is the position of the only `/` in `s`, so that `s`
/// is a well-formed textual form split at `i`.
pub open spec fn is_split_point(s: Seq<char>, i: int) -> bool {
    &&& 0 <= i < s.len()
    &&& s[i] == '/'
    &&& forall|j: int| 0 <= j < s.len() && j != i ==> s[j] != '/'
}

/// Holds when `s` has exactly one `/`, the shape `container/codec`.
pub open spec fn format_parse_ok(s: Seq<char>) -> bool {
    exists|i: int| is_split_point(s, i)
}

/// The textual form of a format: container, `/`, codec.
pub open spec fn serialized_seq(f: AudioFormat) -> Seq<char> {
    f.container@ + seq!['/'] + f.codec@
}

impl AudioFormat {
    pub fn new(container: String, codec: String) -> (r: Self)
        ensures
            r.container@ == container@,
            r.codec@ == codec@,
    {
        AudioFormat { container, codec }
    }
}

impl Clone for AudioFormat {
    fn clone(&self) -> (r: Self)
        ensures
            r == *self,
    {
        AudioFormat { container: self.container.clone(), codec: self.codec.clone() }
    }
}

/// The index of the first `/` at or after `from`, if any.
fn find_slash(s: &str, from: usize, n: usize) -> (r: Option<usize>)
    requires
        n == s@.len(),
        from <= n,
    ensures
        match r {
            Some(i) => from <= i < n && s@[i as int] == '/' && forall|j: int|
                from <= j < i ==> s@[j] != '/',
            None => forall|j: int| from <= j < n ==> s@[j] != '/',
        },
{
    let mut i: usize = from;
    let mut found: Option<usize> = None;
    let mut scanning = true;
    while scanning
        invariant
            from <= i <= n,
            n == s@.len(),
            forall|j: int| from <= j < i ==> s@[j] != '/',
            match found {
                Some(k) => i == k && i < n && s@[i as int] == '/',
                None => true,
            },
            !scanning ==> (found matches Some(k) && i == k || found is None && i == n),
        decreases n - i + (if scanning { 1int } else { 0int }),
    {
        if i < n {
            if s.get_char(i) == '/' {
                found = Some(i);
                scanning = false;
            } else {
                i = i + 1;
            }
        } else {
            scanning = false;
        }
    }
    found
}

impl AudioFormat {
    /// Parses the textual form `container/codec`.  Strings without
    /// exactly two `/`-separated parts are rejected.
    pub fn from_str(s: &str) -> (r: Result<AudioFormat, ParseError>)
        ensures
            match r {
                Ok(f) => {
                    &&& format_parse_ok(s@)
                    &&& is_split_point(s@, f.container@.len() as int)
                    &&& f.container@ == s@.subrange(0, f.container@.len() as int)
                    &&& f.codec@ == s@.subrange(f.container@.len() + 1int, s@.len() as int)
                },
                Err(_) => !format_parse_ok(s@),
            },
    {
        let n = s.unicode_len();
        match find_slash(s, 0, n) {
            None => {
                proof {
                    assert forall|i: int| !is_split_point(s@, i) by {
                        if 0 <= i < s@.len() {
                            assert(s@[i] != '/');
                        }
                    }
                }
                Err(ParseError)
            },
            Some(i) => {
                match find_slash(s, i + 1, n) {
                    Some(k) => {
                        proof {
                            assert forall|m: int| !is_split_point(s@, m) by {
                                if 0 <= m < s@.len() {
                                    if m == i as int {
                                        assert(s@[k as int] == '/');
                                    } else {
                                        assert(s@[i as int] == '/');
                                    }
                                }
                            }
                        }
                        Err(ParseError)
                    },
                    None => {
                        let container = String::from_str(s.substring_char(0, i));
                        let codec = String::from_str(s.substring_char(i + 1, n));
                        proof {
                            assert(is_split_point(s@, i as int));
                        }
                        Ok(AudioFormat { container, codec })
                    },
                }
            },
        }
    }

    /// The textual form `container/codec`.
    pub fn serialized(&self) -> (r: String)
        ensures
            r@ == serialized_seq(*self),
    {
        let mut out = self.container.clone();
        out.append("/");
        out.append(self.codec.as_str());
        proof {
            reveal_strlit("/");
            assert(out@ =~= serialized_seq(*self));
        }
        out
    }
}

/// The textual form of a format parses back to the same pair, as long
/// as neither half contains the separator itself.
pub proof fn lemma_format_round_trip(f: AudioFormat)
    requires
        !f.container@.contains('/'),
        !f.codec@.contains('/'),
    ensures
        is_split_point(serialized_seq(f), f.container@.len() as int),
        serialized_seq(f).subrange(0, f.container@.len() as int) == f.container@,
        serialized_seq(f).subrange(
            f.container@.len() + 1int,
            serialized_seq(f).len() as int,
        ) == f.codec@,
{
    let s = serialized_seq(f);
    let n = f.container@.len() as int;
    assert(s[n] == '/');
    assert forall|j: int| 0 <= j < s.len() && j != n implies s[j] != '/' by {
        if j < n {
            assert(s[j] == f.container@[j]);
            if s[j] == '/' {
                assert(f.container@.contains('/'));
            }
        } else {
            assert(s[j] == f.codec@[j - n - 1]);
            if s[j] == '/' {
                assert(f.codec@.contains('/'));
            }
        }
    }
    assert(s.subrange(0, n) =~= f.container@);
    assert(s.subrange(n + 1, s.len() as int) =~= f.codec@);
}

} // verus!
