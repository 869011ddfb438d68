use binjuice::config::AudioConfig;
use binjuice::errors::ReadFailure;
use binjuice::events::EVENT_KIND_COUNT;
use binjuice::events::EventKind;
use binjuice::handler::AttachOutcome;
use binjuice::handler::SoundHandler;
use binjuice::playback::PlayOutcome;
use binjuice::table::ReadOutcome;

/// A minimal valid 16-bit PCM mono WAV file.
fn wav_bytes() -> Vec<u8> {
    let samples: Vec<i16> = vec![0, 1000, -1000, 2000, -2000, 0, 500, -500];
    let data_len = (samples.len() * 2) as u32;
    let mut b: Vec<u8> = Vec::new();
    b.extend_from_slice(b"RIFF");
    b.extend_from_slice(&(36 + data_len).to_le_bytes());
    b.extend_from_slice(b"WAVE");
    b.extend_from_slice(b"fmt ");
    b.extend_from_slice(&16u32.to_le_bytes());
    b.extend_from_slice(&1u16.to_le_bytes()); // PCM
    b.extend_from_slice(&1u16.to_le_bytes()); // mono
    b.extend_from_slice(&8000u32.to_le_bytes());
    b.extend_from_slice(&16000u32.to_le_bytes());
    b.extend_from_slice(&2u16.to_le_bytes());
    b.extend_from_slice(&16u16.to_le_bytes());
    b.extend_from_slice(b"data");
    b.extend_from_slice(&data_len.to_le_bytes());
    for s in samples {
        b.extend_from_slice(&s.to_le_bytes());
    }
    b
}

fn garbage_bytes() -> Vec<u8> {
    vec![0xde, 0xad, 0xbe, 0xef, 0x00, 0x01, 0x02, 0x03, 0x04, 0x05]
}

fn no_reads() -> Vec<ReadOutcome> {
    let mut v: Vec<ReadOutcome> = Vec::new();
    for _ in 0..EVENT_KIND_COUNT {
        v.push(None);
    }
    v
}

/// A config and matching read outcomes holding the given buffers.
fn setup(entries: &[(EventKind, Result<Vec<u8>, ReadFailure>)]) -> (AudioConfig, Vec<ReadOutcome>) {
    let mut config = AudioConfig::empty();
    let mut reads = no_reads();
    for (kind, outcome) in entries {
        config.set_path(*kind, Some(format!("{:?}.wav", kind)));
        reads[kind.index()] = Some(outcome.clone());
    }
    (config, reads)
}

#[test]
fn scenario_loading_and_mask() {
    let (config, reads) = setup(&[(EventKind::FunctionAdded, Ok(wav_bytes()))]);
    let (handler, started) = SoundHandler::new(&config, &reads).unwrap();

    // No startup sound is configured, so none plays.
    assert!(matches!(started, PlayOutcome::NoSound));

    // The table holds exactly the bytes of the one configured file.
    let buffer = handler.audio.buffer(EventKind::FunctionAdded);
    assert_eq!(buffer.as_ref().unwrap(), &wav_bytes());
    assert!(handler.audio.buffer(EventKind::SymbolAdded).is_none());

    // The mask holds exactly the one loaded kind.
    let mask = handler.triggers();
    assert!(mask.contains(EventKind::FunctionAdded));
    assert!(!mask.contains(EventKind::SymbolAdded));
    let request = mask.kinds();
    assert_eq!(request.len(), 1);
    assert_eq!(request[0], EventKind::FunctionAdded);
}

#[test]
fn mask_matches_table_for_every_kind() {
    let (config, reads) = setup(&[
        (EventKind::FunctionAdded, Ok(wav_bytes())),
        (EventKind::SymbolRemoved, Ok(garbage_bytes())),
        (EventKind::Rebased, Ok(wav_bytes())),
    ]);
    let (handler, _) = SoundHandler::new(&config, &reads).unwrap();
    let mask = handler.triggers();
    for i in 0..EVENT_KIND_COUNT {
        let k = EventKind::from_index(i);
        assert_eq!(mask.contains(k), handler.audio.buffer(k).is_some());
    }
}

#[test]
fn subscription_request_lists_only_masked_kinds() {
    let (config, reads) = setup(&[
        (EventKind::DataWritten, Ok(wav_bytes())),
        (EventKind::TagAdded, Ok(wav_bytes())),
    ]);
    let (mut handler, _) = SoundHandler::new(&config, &reads).unwrap();
    match handler.on_analysis_complete(0x4000) {
        AttachOutcome::Attached { request, started } => {
            assert!(matches!(started, PlayOutcome::NoSound));
            assert_eq!(request.len(), 2);
            for k in &request {
                assert!(handler.audio.buffer(*k).is_some());
            }
            // in catalog order, each kind once
            assert_eq!(request[0], EventKind::DataWritten);
            assert_eq!(request[1], EventKind::TagAdded);
            assert!(!request.contains(&EventKind::SymbolAdded));
        },
        AttachOutcome::AlreadyAttached => panic!("first announcement must attach"),
    }
}

#[test]
fn dispatch_of_unconfigured_kind_plays_nothing() {
    let (config, reads) = setup(&[(EventKind::TagAdded, Ok(wav_bytes()))]);
    let (handler, _) = SoundHandler::new(&config, &reads).unwrap();
    assert!(matches!(handler.dispatch(EventKind::DataWritten), PlayOutcome::NoSound));
}

#[test]
fn decode_failure_is_isolated_per_invocation() {
    let (config, reads) = setup(&[
        (EventKind::FunctionAdded, Ok(garbage_bytes())),
        (EventKind::SymbolAdded, Ok(wav_bytes())),
    ]);
    let (handler, _) = SoundHandler::new(&config, &reads).unwrap();

    // The corrupted buffer fails to decode, named for its own event kind...
    match handler.dispatch(EventKind::FunctionAdded) {
        PlayOutcome::DecodeFailed(e) => assert_eq!(e.kind, EventKind::FunctionAdded),
        _ => panic!("garbage bytes must not decode"),
    }
    // ...and a subsequent valid buffer still plays.
    assert!(matches!(handler.dispatch(EventKind::SymbolAdded), PlayOutcome::Submitted(_)));
    // The failure also stays isolated when the corrupted buffer is retried.
    assert!(matches!(
        handler.dispatch(EventKind::FunctionAdded),
        PlayOutcome::DecodeFailed(_)
    ));
}

/// A WAVE buffer in the extensible format with zero bits per sample: a shape
/// the decoder's fmt parser aborts on, which the engine must reject up front.
fn extensible_zero_bits_wav() -> Vec<u8> {
    let mut b: Vec<u8> = Vec::new();
    b.extend_from_slice(b"RIFF");
    b.extend_from_slice(&64u32.to_le_bytes());
    b.extend_from_slice(b"WAVE");
    b.extend_from_slice(b"fmt ");
    b.extend_from_slice(&40u32.to_le_bytes()); // extended fmt chunk
    b.extend_from_slice(&0xFFFEu16.to_le_bytes()); // extensible format tag
    b.extend_from_slice(&1u16.to_le_bytes()); // mono
    b.extend_from_slice(&8000u32.to_le_bytes());
    b.extend_from_slice(&16000u32.to_le_bytes());
    b.extend_from_slice(&2u16.to_le_bytes()); // block align
    b.extend_from_slice(&0u16.to_le_bytes()); // zero bits per sample
    b.extend_from_slice(&22u16.to_le_bytes()); // extension size
    b.extend_from_slice(&0u16.to_le_bytes()); // valid bits
    b.extend_from_slice(&4u32.to_le_bytes()); // channel mask
    // PCM subtype GUID
    b.extend_from_slice(&[
        0x01, 0x00, 0x00, 0x00, 0x00, 0x00, 0x10, 0x00, 0x80, 0x00, 0x00, 0xAA, 0x00, 0x38,
        0x9B, 0x71,
    ]);
    b.extend_from_slice(b"data");
    b.extend_from_slice(&4u32.to_le_bytes());
    b.extend_from_slice(&[0, 0, 0, 0]);
    b
}

#[test]
fn crafted_extensible_buffer_is_rejected_not_fatal() {
    let (config, reads) = setup(&[(EventKind::DataWritten, Ok(extensible_zero_bits_wav()))]);
    let (handler, _) = SoundHandler::new(&config, &reads).unwrap();
    // The engine must report this buffer, not abort inside the host's callback.
    match handler.dispatch(EventKind::DataWritten) {
        PlayOutcome::DecodeFailed(e) => assert_eq!(e.kind, EventKind::DataWritten),
        _ => panic!("a non-plain-PCM buffer must be rejected"),
    }
}

#[test]
fn plain_pcm_check_accepts_wav_and_rejects_garbage() {
    assert!(binjuice::playback::check_plain_pcm_wav(&wav_bytes()));
    assert!(!binjuice::playback::check_plain_pcm_wav(&garbage_bytes()));
    assert!(!binjuice::playback::check_plain_pcm_wav(&extensible_zero_bits_wav()));
}

#[test]
fn startup_sound_plays_when_configured() {
    let (config, reads) = setup(&[(EventKind::StartBinaryNinja, Ok(wav_bytes()))]);
    let (_, started) = SoundHandler::new(&config, &reads).unwrap();
    assert!(matches!(started, PlayOutcome::Submitted(_)));
}

#[test]
fn corrupt_startup_sound_reports_its_kind() {
    let (config, reads) = setup(&[(EventKind::StartBinaryNinja, Ok(garbage_bytes()))]);
    let (_, started) = SoundHandler::new(&config, &reads).unwrap();
    match started {
        PlayOutcome::DecodeFailed(e) => assert_eq!(e.kind, EventKind::StartBinaryNinja),
        _ => panic!("garbage startup bytes must not decode"),
    }
}

#[test]
fn document_sound_plays_on_first_attach() {
    let (config, reads) = setup(&[(EventKind::StartBinaryView, Ok(wav_bytes()))]);
    let (mut handler, _) = SoundHandler::new(&config, &reads).unwrap();
    match handler.on_analysis_complete(7) {
        AttachOutcome::Attached { started, .. } => {
            assert!(matches!(started, PlayOutcome::Submitted(_)));
        },
        AttachOutcome::AlreadyAttached => panic!("first announcement must attach"),
    }
    assert!(matches!(handler.on_analysis_complete(7), AttachOutcome::AlreadyAttached));
}
