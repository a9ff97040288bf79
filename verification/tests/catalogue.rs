use backend::errors::BackendError;
use backend::format::AudioFormat;
use backend::mime::{choose_format, MimeCatalog, MimeType};
use backend::probe::{interpret_probe, ProbeReport};

fn catalog() -> MimeCatalog {
    let mut c = MimeCatalog::new();
    c.add(MimeType::new(
        1,
        AudioFormat::new("ogg".into(), "opus".into()),
        "audio/ogg; codec=opus".into(),
        "ogg".into(),
    ));
    c.add(MimeType::new(
        2,
        AudioFormat::new("webm".into(), "opus".into()),
        "audio/webm".into(),
        "webm".into(),
    ));
    c
}

#[test]
fn resolve_finds_the_registered_row() {
    let c = catalog();
    let m = c
        .resolve(&AudioFormat::new("ogg".into(), "opus".into()))
        .expect("registered format resolves");
    assert_eq!(m.id, 1);
    assert_eq!(m.essence, "audio/ogg; codec=opus");

    assert!(c.resolve(&AudioFormat::new("wav".into(), "pcm".into())).is_none());
    assert!(c.resolve(&AudioFormat::new("ogg".into(), "vorbis".into())).is_none());
}

#[test]
fn choose_format_takes_the_first_candidate_that_resolves() {
    let c = catalog();
    let formats = vec![
        AudioFormat::new("matroska".into(), "opus".into()),
        AudioFormat::new("webm".into(), "opus".into()),
        AudioFormat::new("ogg".into(), "opus".into()),
    ];
    let (chosen, mime) = choose_format(&formats, &c).expect("a candidate resolves");
    assert_eq!(chosen.container, "webm");
    assert_eq!(mime.id, 2);
}

#[test]
fn choose_format_reports_the_first_candidate_when_none_resolves() {
    let c = catalog();
    let formats = vec![
        AudioFormat::new("wav".into(), "pcm".into()),
        AudioFormat::new("aiff".into(), "pcm".into()),
    ];
    match choose_format(&formats, &c) {
        Err(BackendError::InvalidAudioFormat { format }) => {
            assert_eq!(format.container, "wav");
            assert_eq!(format.codec, "pcm");
        }
        other => panic!("unexpected: {:?}", other),
    }
}

#[test]
fn choose_format_with_no_candidates_is_unrecognized() {
    let c = catalog();
    assert!(matches!(
        choose_format(&vec![], &c),
        Err(BackendError::UnrecognizedAudioFormat)
    ));
}

#[test]
fn interpret_probe_splits_container_candidates() {
    let report = ProbeReport {
        streams: vec!["opus".to_string()],
        format_name: "matroska,webm".to_string(),
    };
    let formats = interpret_probe(&report).expect("one stream");
    assert_eq!(formats.len(), 2);
    assert_eq!(formats[0].container, "matroska");
    assert_eq!(formats[1].container, "webm");
    assert_eq!(formats[0].codec, "opus");
    assert_eq!(formats[1].codec, "opus");
}

#[test]
fn interpret_probe_requires_exactly_one_stream() {
    let none = ProbeReport { streams: vec![], format_name: "ogg".to_string() };
    assert!(matches!(
        interpret_probe(&none),
        Err(BackendError::TooManyStreams { expected: 1, actual: 0 })
    ));

    let two = ProbeReport {
        streams: vec!["opus".to_string(), "vorbis".to_string()],
        format_name: "ogg".to_string(),
    };
    assert!(matches!(
        interpret_probe(&two),
        Err(BackendError::TooManyStreams { expected: 1, actual: 2 })
    ));
}

#[test]
fn interpret_probe_of_empty_container_yields_one_empty_candidate() {
    let report = ProbeReport { streams: vec!["opus".to_string()], format_name: String::new() };
    let formats = interpret_probe(&report).expect("one stream");
    assert_eq!(formats.len(), 1);
    assert_eq!(formats[0].container, "");
}
