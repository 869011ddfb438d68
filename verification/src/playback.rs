use vstd::prelude::*;

use crate::events::EventKind;

verus! {

/// A decoded audio stream over an owned copy of one table buffer, ready for
/// the output device's mixer. It carries a rodio decoder through opaquely;
/// nothing is claimed or proved about the samples inside.
#[verifier::external_body]
pub struct AudioStream {
    stream: rodio::Decoder<std::io::Cursor<Vec<u8>>>,
}

/// The little-endian 16-bit value at offset `i`.
pub open spec fn le16(s: Seq<u8>, i: int) -> int {
    s[i] + 0x100 * s[i + 1]
}

/// The little-endian 32-bit value at offset `i`.
pub open spec fn le32(s: Seq<u8>, i: int) -> int {
    s[i] + 0x100 * s[i + 1] + 0x10000 * s[i + 2] + 0x1000000 * s[i + 3]
}

/// A canonical plain-PCM WAVE buffer: one RIFF/WAVE stream whose sizes match
/// the buffer exactly, one 16-byte fmt chunk of format tag 1 (integer PCM,
/// never the extensible form), 1 or 2 channels, a sane sample rate, 8 or 16
/// bits per sample with consistent block align and byte rate, and one data
/// chunk of at least one whole block filling the rest of the buffer. Only
/// such buffers are handed to the decoder: inside this envelope the decoder's
/// fmt parsing takes the plain-PCM path and every header and packet read is
/// in bounds, so the call returns instead of aborting.
pub open spec fn is_plain_pcm_wav(s: Seq<u8>) -> bool {
    let channels = le16(s, 22);
    let rate = le32(s, 24);
    let block = le16(s, 32);
    let bits = le16(s, 34);
    let data_len = le32(s, 40);
    &&& s.len() >= 44
    &&& s[0] == 0x52 && s[1] == 0x49 && s[2] == 0x46 && s[3] == 0x46  // "RIFF"
    &&& le32(s, 4) == s.len() - 8
    &&& s[8] == 0x57 && s[9] == 0x41 && s[10] == 0x56 && s[11] == 0x45  // "WAVE"
    &&& s[12] == 0x66 && s[13] == 0x6d && s[14] == 0x74 && s[15] == 0x20  // "fmt "
    &&& le32(s, 16) == 16
    &&& le16(s, 20) == 1
    &&& (channels == 1 || channels == 2)
    &&& 1 <= rate <= 192000
    &&& (bits == 8 || bits == 16)
    &&& block == channels * (bits / 8)
    &&& le32(s, 28) == rate * block
    &&& s[36] == 0x64 && s[37] == 0x61 && s[38] == 0x74 && s[39] == 0x61  // "data"
    &&& data_len == s.len() - 44
    &&& data_len >= block
    &&& data_len % block == 0
}

/// The little-endian 16-bit value at offset `i`.
fn read_le16(b: &Vec<u8>, i: usize) -> (v: u64)
    requires
        i + 2 <= b@.len() <= usize::MAX,
    ensures
        v == le16(b@, i as int),
{
    b[i] as u64 + 0x100 * (b[i + 1] as u64)
}

/// The little-endian 32-bit value at offset `i`.
fn read_le32(b: &Vec<u8>, i: usize) -> (v: u64)
    requires
        i + 4 <= b@.len() <= usize::MAX,
    ensures
        v == le32(b@, i as int),
{
    b[i] as u64 + 0x100 * (b[i + 1] as u64) + 0x10000 * (b[i + 2] as u64) + 0x1000000 * (b[i
        + 3] as u64)
}

/// Whether `b` is a canonical plain-PCM WAVE buffer, the only shape the
/// playback engine hands to the decoder.
pub fn check_plain_pcm_wav(b: &Vec<u8>) -> (r: bool)
    ensures
        r == is_plain_pcm_wav(b@),
{
    if b.len() < 44 {
        return false;
    }
    if !(b[0] == 0x52 && b[1] == 0x49 && b[2] == 0x46 && b[3] == 0x46) {
        return false;
    }
    if read_le32(b, 4) != (b.len() - 8) as u64 {
        return false;
    }
    if !(b[8] == 0x57 && b[9] == 0x41 && b[10] == 0x56 && b[11] == 0x45) {
        return false;
    }
    if !(b[12] == 0x66 && b[13] == 0x6d && b[14] == 0x74 && b[15] == 0x20) {
        return false;
    }
    if read_le32(b, 16) != 16 {
        return false;
    }
    if read_le16(b, 20) != 1 {
        return false;
    }
    let channels = read_le16(b, 22);
    if !(channels == 1 || channels == 2) {
        return false;
    }
    let rate = read_le32(b, 24);
    if !(1 <= rate && rate <= 192000) {
        return false;
    }
    let bits = read_le16(b, 34);
    if !(bits == 8 || bits == 16) {
        return false;
    }
    let block = read_le16(b, 32);
    if block != channels * (bits / 8) {
        return false;
    }
    proof {
        assert(rate * block <= 768000) by (nonlinear_arith)
            requires
                rate <= 192000,
                block <= 4,
        ;
    }
    if read_le32(b, 28) != rate * block {
        return false;
    }
    if !(b[36] == 0x64 && b[37] == 0x61 && b[38] == 0x74 && b[39] == 0x61) {
        return false;
    }
    let data_len = read_le32(b, 40);
    if data_len != (b.len() - 44) as u64 {
        return false;
    }
    if data_len < block {
        return false;
    }
    if data_len % block != 0 {
        return false;
    }
    true
}

/// Whether a canonical plain-PCM WAVE buffer decodes as an audio stream. The
/// decoder probes the bytes with fixed default settings, so the outcome is a
/// function of the bytes alone.
pub uninterp spec fn decode_ok(bytes: Seq<u8>) -> bool;

/// Relies on rodio::Decoder::new: probes an in-memory buffer for a supported
/// audio format, returning the decoded stream, or an error when the format is
/// unrecognized or unsupported. The outcome depends on the buffer's bytes
/// alone. The decoder is not total: on crafted buffers its WAVE fmt parsing
/// can abort, so only canonical plain-PCM buffers, on which its header and
/// first-packet reads stay on the plain-PCM path and in bounds, are admitted
/// here; `play_audio` checks that before calling.
#[verifier::external_body]
fn decode_buffer(bytes: &Vec<u8>) -> (r: Result<AudioStream, String>)
    requires
        is_plain_pcm_wav(bytes@),
    ensures
        r is Ok <==> decode_ok(bytes@),
{
    match rodio::Decoder::new(std::io::Cursor::new(bytes.clone())) {
        Ok(stream) => Ok(AudioStream { stream }),
        Err(e) => Err(format!("{e}")),
    }
}

/// A buffer that could not be played: reported with the event kind it was
/// played for, and otherwise ignored.
pub struct DecodeError {
    pub kind: EventKind,
    pub message: String,
}

/// What one playback invocation did.
pub enum PlayOutcome {
    /// No sound is held for the kind: nothing to do.
    NoSound,
    /// The buffer decoded; the stream goes to the output device's mixer, fire
    /// and forget.
    Submitted(AudioStream),
    /// The buffer is not a playable sound; the failure is isolated to this
    /// one invocation and never propagates to the caller.
    DecodeFailed(DecodeError),
}

/// What the engine reports for one invocation: nothing when no buffer is
/// held, a submitted stream exactly when the bytes are a canonical plain-PCM
/// WAVE buffer that decodes, and an isolated failure naming the originating
/// kind otherwise.
pub open spec fn play_result_for(buffer: Option<Seq<u8>>, kind: EventKind, r: PlayOutcome) -> bool {
    &&& buffer is None ==> r is NoSound
    &&& buffer matches Some(b) ==> ((r is Submitted <==> (is_plain_pcm_wav(b) && decode_ok(b))) && (
    !(is_plain_pcm_wav(b) && decode_ok(b)) ==> (r matches PlayOutcome::DecodeFailed(e) && e.kind
        == kind)))
}

/// Decode isolation: each engine invocation answers for its own buffer alone,
/// so a corrupted buffer never prevents a subsequently submitted valid buffer
/// from playing, and each invocation reports independently.
pub proof fn lemma_decode_isolation(
    b1: Seq<u8>,
    b2: Seq<u8>,
    k1: EventKind,
    k2: EventKind,
    r1: PlayOutcome,
    r2: PlayOutcome,
)
    requires
        play_result_for(Some(b1), k1, r1),
        play_result_for(Some(b2), k2, r2),
        !(is_plain_pcm_wav(b1) && decode_ok(b1)),
        is_plain_pcm_wav(b2) && decode_ok(b2),
    ensures
        r1 matches PlayOutcome::DecodeFailed(e) && e.kind == k1,
        r2 is Submitted,
{
}

/// The playback engine: decodes `buffer`, if there is one, and hands the
/// stream onward. A buffer is decoded only after it passes the plain-PCM
/// check, so the decoder is never fed a shape on which it could abort; any
/// rejected or undecodable buffer is reported with the originating event kind
/// and aborts nothing — the next invocation is unaffected.
pub fn play_audio(buffer: &Option<Vec<u8>>, kind: EventKind) -> (r: PlayOutcome)
    ensures
        play_result_for(crate::table::entry_view(*buffer), kind, r),
{
    match buffer {
        None => PlayOutcome::NoSound,
        Some(b) => {
            if !check_plain_pcm_wav(b) {
                return PlayOutcome::DecodeFailed(
                    DecodeError { kind, message: "not a plain PCM WAVE buffer".to_owned() },
                );
            }
            match decode_buffer(b) {
                Ok(stream) => PlayOutcome::Submitted(stream),
                Err(message) => PlayOutcome::DecodeFailed(DecodeError { kind, message }),
            }
        },
    }
}

} // verus!
