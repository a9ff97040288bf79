//! The MIME type catalogue: the registered, finite set of supported
//! container/codec pairs, and the choice of the first probe
//! candidate that resolves.

use vstd::prelude::*;

verus! {

use crate::errors::BackendError;
use crate::format::AudioFormat;

/// A registered MIME type row: the audio format it is for, its
/// canonical essence string, and its file extension.
#[derive(Debug, PartialEq)]
pub struct MimeType {
    pub id: i16,
    pub audio_format: AudioFormat,
    pub essence: String,
    pub extension: String,
}

impl MimeType {
    pub fn new(id: i16, audio_format: AudioFormat, essence: String, extension: String) -> (r: Self)
        ensures
            r == (MimeType { id, audio_format, essence, extension }),
    {
        MimeType { id, audio_format, essence, extension }
    }
}

impl Clone for MimeType {
    fn clone(&self) -> (r: Self)
        ensures
            r == *self,
    {
        MimeType {
            id: self.id,
            audio_format: self.audio_format.clone(),
            essence: self.essence.clone(),
            extension: self.extension.clone(),
        }
    }
}

/// Whether a catalogue row is for the format `f`.
pub open spec fn mime_matches(m: MimeType, f: AudioFormat) -> bool {
    m.audio_format.container@ == f.container@ && m.audio_format.codec@ == f.codec@
}

/// The first catalogue row for `f`, if any.
pub open spec fn resolve_seq(entries: Seq<MimeType>, f: AudioFormat) -> Option<MimeType>
    decreases entries.len(),
{
    if entries.len() == 0 {
        None
    } else if mime_matches(entries[0], f) {
        Some(entries[0])
    } else {
        resolve_seq(entries.drop_first(), f)
    }
}

/// The registered catalogue.
pub struct MimeCatalog {
    entries: Vec<MimeType>,
}

impl MimeCatalog {
    /// The registered rows, in order.
    pub closed spec fn catalogue(&self) -> Seq<MimeType> {
        self.entries@
    }

    /// An empty catalogue.
    pub fn new() -> (r: Self)
        ensures
            r.catalogue() == Seq::<MimeType>::empty(),
    {
        MimeCatalog { entries: Vec::new() }
    }

    /// Registers one row.
    pub fn add(&mut self, row: MimeType)
        ensures
            final(self).catalogue() == old(self).catalogue().push(row),
    {
        self.entries.push(row);
    }

    /// Pure lookup: the first registered row for `f`.  Nothing found
    /// is the expected answer for an unsupported format, not a fault.
    pub fn resolve(&self, f: &AudioFormat) -> (r: Option<MimeType>)
        ensures
            r == resolve_seq(self.catalogue(), *f),
    {
        let mut i: usize = 0;
        proof {
            assert(self.entries@.skip(0) =~= self.entries@);
        }
        while i < self.entries.len()
            invariant
                i <= self.entries@.len(),
                resolve_seq(self.entries@, *f) == resolve_seq(self.entries@.skip(i as int), *f),
            decreases self.entries@.len() - i,
        {
            let row = &self.entries[i];
            proof {
                assert(self.entries@.skip(i as int)[0] == self.entries@[i as int]);
                assert(self.entries@.skip(i as int).drop_first() =~= self.entries@.skip(i + 1));
            }
            let container_matches = row.audio_format.container == f.container;
            let codec_matches = row.audio_format.codec == f.codec;
            if container_matches && codec_matches {
                return Some(row.clone());
            }
            i = i + 1;
        }
        proof {
            assert(self.entries@.skip(self.entries@.len() as int).len() == 0);
        }
        None
    }
}

/// The first probe candidate with a catalogue row, with that row.
pub open spec fn pick_format(formats: Seq<AudioFormat>, entries: Seq<MimeType>) -> Option<
    (AudioFormat, MimeType),
>
    decreases formats.len(),
{
    if formats.len() == 0 {
        None
    } else {
        match resolve_seq(entries, formats[0]) {
            Some(m) => Some((formats[0], m)),
            None => pick_format(formats.drop_first(), entries),
        }
    }
}

/// The first catalogue row whose format has exactly these container
/// and codec texts.
pub open spec fn resolve_views(
    entries: Seq<MimeType>,
    container: Seq<char>,
    codec: Seq<char>,
) -> Option<MimeType>
    decreases entries.len(),
{
    if entries.len() == 0 {
        None
    } else if entries[0].audio_format.container@ == container && entries[0].audio_format.codec@
        == codec {
        Some(entries[0])
    } else {
        resolve_views(entries.drop_first(), container, codec)
    }
}

/// The first container text with a catalogue row, with that row,
/// all candidates sharing one codec.
pub open spec fn pick_views(
    entries: Seq<MimeType>,
    containers: Seq<Seq<char>>,
    codec: Seq<char>,
) -> Option<(Seq<char>, MimeType)>
    decreases containers.len(),
{
    if containers.len() == 0 {
        None
    } else {
        match resolve_views(entries, containers[0], codec) {
            Some(m) => Some((containers[0], m)),
            None => pick_views(entries, containers.drop_first(), codec),
        }
    }
}

/// Resolution only reads the texts of a format.
pub proof fn lemma_resolve_views(entries: Seq<MimeType>, f: AudioFormat)
    ensures
        resolve_seq(entries, f) == resolve_views(entries, f.container@, f.codec@),
    decreases entries.len(),
{
    if entries.len() > 0 && !mime_matches(entries[0], f) {
        lemma_resolve_views(entries.drop_first(), f);
    }
}

/// Choosing among format values is choosing among their texts.
pub proof fn lemma_pick_views(
    formats: Seq<AudioFormat>,
    entries: Seq<MimeType>,
    containers: Seq<Seq<char>>,
    codec: Seq<char>,
)
    requires
        containers.len() == formats.len(),
        forall|k: int|
            0 <= k < formats.len() ==> formats[k].container@ == containers[k]
                && formats[k].codec@ == codec,
    ensures
        match pick_format(formats, entries) {
            None => pick_views(entries, containers, codec) is None,
            Some(p) => pick_views(entries, containers, codec) == Some((p.0.container@, p.1)),
        },
    decreases formats.len(),
{
    if formats.len() > 0 {
        lemma_resolve_views(entries, formats[0]);
        match resolve_seq(entries, formats[0]) {
            Some(_) => {},
            None => {
                assert forall|k: int|
                    0 <= k < formats.drop_first().len() implies formats.drop_first()[k].container@
                    == containers.drop_first()[k] && formats.drop_first()[k].codec@ == codec by {
                    assert(formats.drop_first()[k] == formats[k + 1]);
                    assert(containers.drop_first()[k] == containers[k + 1]);
                }
                lemma_pick_views(formats.drop_first(), entries, containers.drop_first(), codec);
            },
        }
    }
}

/// Tries the probe's candidate formats in the order reported, and
/// takes the first that resolves to a registered MIME type.  No
/// candidates at all means the audio was unrecognizable; candidates
/// but no catalogue row means the format is unsupported, reported
/// with the first candidate.
pub fn choose_format(formats: &Vec<AudioFormat>, catalog: &MimeCatalog) -> (r: Result<
    (AudioFormat, MimeType),
    BackendError,
>)
    ensures
        formats@.len() == 0 ==> r == Err::<(AudioFormat, MimeType), BackendError>(
            BackendError::UnrecognizedAudioFormat,
        ),
        formats@.len() > 0 ==> match pick_format(formats@, catalog.catalogue()) {
            Some(p) => r == Ok::<(AudioFormat, MimeType), BackendError>(p),
            None => r matches Err(BackendError::InvalidAudioFormat { format }) && format
                == formats@[0],
        },
{
    if formats.len() == 0 {
        return Err(BackendError::UnrecognizedAudioFormat);
    }
    let mut i: usize = 0;
    proof {
        assert(formats@.skip(0) =~= formats@);
    }
    while i < formats.len()
        invariant
            i <= formats@.len(),
            pick_format(formats@, catalog.catalogue()) == pick_format(
                formats@.skip(i as int),
                catalog.catalogue(),
            ),
        decreases formats@.len() - i,
    {
        let candidate = &formats[i];
        proof {
            assert(formats@.skip(i as int)[0] == formats@[i as int]);
            assert(formats@.skip(i as int).drop_first() =~= formats@.skip(i + 1));
        }
        match catalog.resolve(candidate) {
            Some(m) => {
                return Ok((candidate.clone(), m));
            },
            None => {},
        }
        i = i + 1;
    }
    proof {
        assert(formats@.skip(formats@.len() as int).len() == 0);
    }
    Err(BackendError::InvalidAudioFormat { format: formats[0].clone() })
}

} // verus!
