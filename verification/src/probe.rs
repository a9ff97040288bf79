//! Interpretation of the audio probe's report.
//!
//! The probe itself is an outside process; what arrives here is its
//! structured output: the codec of each stream it decoded, and the
//! container name, which may list several plausible containers
//! separated by commas.  Exactly one stream must be present; each
//! container candidate becomes its own format with the shared codec.

use vstd::prelude::*;

verus! {

use vstd::string::StrSliceExecFns;
use vstd::string::StringExecFns;
use crate::errors::BackendError;
use crate::format::AudioFormat;

/// The structured output of the probe: one codec name per decodable
/// stream, and the container name (possibly comma-separated).
#[derive(Debug, PartialEq)]
pub struct ProbeReport {
    pub streams: Vec<String>,
    pub format_name: String,
}

/// The index of the first `c` in `s`, or the length if there is
/// none.
pub open spec fn first_sep(s: Seq<char>, c: char) -> nat
    decreases s.len(),
{
    if s.len() == 0 {
        0
    } else if s[0] == c {
        0
    } else {
        1 + first_sep(s.drop_first(), c)
    }
}

/// A scan that stops at the first `c` finds `first_sep`.
proof fn lemma_first_sep_scan(s: Seq<char>, c: char, i: int)
    requires
        0 <= i <= s.len(),
        forall|j: int| 0 <= j < i ==> s[j] != c,
        i < s.len() ==> s[i] == c,
    ensures
        i == first_sep(s, c),
    decreases s.len(),
{
    if s.len() > 0 && s[0] != c {
        assert(i > 0);
        let t = s.drop_first();
        assert forall|j: int| 0 <= j < i - 1 implies t[j] != c by {
            assert(t[j] == s[j + 1]);
        }
        lemma_first_sep_scan(t, c, i - 1);
    }
}

/// `s` split on `c`: the pieces between separators, in order.  A
/// string without separators is one piece; an empty string is one
/// empty piece.
pub open spec fn split_seq(s: Seq<char>, c: char) -> Seq<Seq<char>>
    decreases s.len(),
{
    let i = first_sep(s, c);
    if i >= s.len() {
        seq![s]
    } else {
        seq![s.subrange(0, i as int)] + split_seq(s.subrange(i as int + 1, s.len() as int), c)
    }
}

/// A split always yields at least one piece.
pub proof fn lemma_split_nonempty(s: Seq<char>, c: char)
    ensures
        split_seq(s, c).len() >= 1,
{
}

/// The index of the first `c` at or after `from`, if any.
fn find_char(s: &str, from: usize, n: usize, c: char) -> (r: Option<usize>)
    requires
        n == s@.len(),
        from <= n,
    ensures
        match r {
            Some(i) => from <= i < n && s@[i as int] == c && forall|j: int|
                from <= j < i ==> s@[j] != c,
            None => forall|j: int| from <= j < n ==> s@[j] != c,
        },
{
    let mut i: usize = from;
    let mut found: Option<usize> = None;
    let mut scanning = true;
    while scanning
        invariant
            from <= i <= n,
            n == s@.len(),
            forall|j: int| from <= j < i ==> s@[j] != c,
            match found {
                Some(k) => i == k && i < n && s@[i as int] == c,
                None => true,
            },
            !scanning ==> (found matches Some(k) && i == k || found is None && i == n),
        decreases n - i + (if scanning { 1int } else { 0int }),
    {
        if i < n {
            if s.get_char(i) == c {
                found = Some(i);
                scanning = false;
            } else {
                i = i + 1;
            }
        } else {
            scanning = false;
        }
    }
    found
}

/// Splits on commas, piece by piece.
pub fn split_commas(s: &str) -> (r: Vec<String>)
    ensures
        r@.map_values(|p: String| p@) == split_seq(s@, ','),
    decreases s@.len(),
{
    let n = s.unicode_len();
    match find_char(s, 0, n, ',') {
        None => {
            proof {
                lemma_first_sep_scan(s@, ',', s@.len() as int);
            }
            let mut out: Vec<String> = Vec::new();
            out.push(String::from_str(s));
            proof {
                assert(out@.map_values(|p: String| p@) =~~= split_seq(s@, ','));
            }
            out
        },
        Some(i) => {
            proof {
                lemma_first_sep_scan(s@, ',', i as int);
            }
            let head = String::from_str(s.substring_char(0, i));
            let rest = s.substring_char(i + 1, n);
            let mut out = split_commas(rest);
            out.insert(0, head);
            proof {
                assert(out@.map_values(|p: String| p@) =~~= split_seq(s@, ','));
            }
            out
        },
    }
}

/// The container candidates the report names.
pub open spec fn report_containers(report: ProbeReport) -> Seq<Seq<char>> {
    split_seq(report.format_name@, ',')
}

/// Turns the probe's report into the candidate formats.  Zero or
/// several streams is an error; one stream yields one format per
/// comma-separated container candidate, each with the stream's
/// codec, in the order reported.
pub fn interpret_probe(report: &ProbeReport) -> (r: Result<Vec<AudioFormat>, BackendError>)
    ensures
        report.streams@.len() != 1 ==> r == Err::<Vec<AudioFormat>, BackendError>(
            BackendError::TooManyStreams {
                expected: 1,
                actual: report.streams@.len() as usize,
            },
        ),
        report.streams@.len() == 1 ==> match r {
            Ok(formats) => {
                &&& formats@.len() == report_containers(*report).len()
                &&& forall|k: int|
                    0 <= k < formats@.len() ==> formats@[k].container@ == report_containers(
                        *report,
                    )[k] && formats@[k].codec@ == report.streams@[0]@
            },
            Err(_) => false,
        },
{
    if report.streams.len() != 1 {
        return Err(
            BackendError::TooManyStreams { expected: 1, actual: report.streams.len() },
        );
    }
    let codec = &report.streams[0];
    let containers = split_commas(report.format_name.as_str());
    let mut formats: Vec<AudioFormat> = Vec::new();
    let mut i: usize = 0;
    while i < containers.len()
        invariant
            i <= containers@.len(),
            containers@.map_values(|p: String| p@) == report_containers(*report),
            codec == report.streams@[0],
            formats@.len() == i,
            forall|k: int|
                0 <= k < i ==> formats@[k].container@ == containers@[k]@ && formats@[k].codec@
                    == report.streams@[0]@,
        decreases containers@.len() - i,
    {
        let piece = &containers[i];
        formats.push(AudioFormat { container: piece.clone(), codec: codec.clone() });
        i = i + 1;
    }
    proof {
        assert forall|k: int| 0 <= k < formats@.len() implies formats@[k].container@
            == report_containers(*report)[k] && formats@[k].codec@ == report.streams@[0]@ by {
            assert(containers@.map_values(|p: String| p@)[k] == containers@[k]@);
        }
    }
    Ok(formats)
}

} // verus!
