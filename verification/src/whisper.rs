//! The WebSocket protocol with the faster-whisper sidecar: the messages,
//! the audio encoding, and what each reply means.  The application holds
//! the socket and the JSON; this module decides.
use base64::Engine;
use vstd::prelude::*;
use crate::number::{decimal, format_u64};
use crate::text::{chars_of, concat_lit, extend_chars, join, string_from};

verus! {

/// Largest WebSocket message and frame: long recordings plus the base64
/// overhead.
pub const WS_MAX_BYTES: usize = 100 * 1024 * 1024;

/// A request to the sidecar.
#[derive(Debug, Clone)]
pub enum ClientMsg {
    Health,
    Models,
    Config { model: String, language: String },
    EnsureModel { model: String },
    Transcribe { audio_b64: String },
    Shutdown,
}

/// A reply of the sidecar, with the fields the client reads.
#[derive(Debug, Clone)]
pub enum ServerReply {
    /// The answer to a health check.
    Status { model: String, language: String, device: String },
    Models { list: Vec<String> },
    ConfigOk,
    Segment { text: String },
    Done { full_text: String, language: String, duration_ms: u64 },
    Ready { model: String },
    Bye,
    Error { msg: String },
}

/// A client of the sidecar on `127.0.0.1:port`.
pub struct WhisperClient {
    port: u16,
}

impl WhisperClient {
    /// A client of the sidecar on `port`.
    pub fn new(port: u16) -> (c: Self)
        ensures
            c.port_spec() == port,
    {
        WhisperClient { port }
    }

    pub closed spec fn port_spec(&self) -> u16 {
        self.port
    }

    /// The sidecar's port.
    pub fn port(&self) -> (p: u16)
        ensures
            p == self.port_spec(),
    {
        self.port
    }

    /// The sidecar's address: `ws://127.0.0.1:<port>`.
    pub fn url(&self) -> (u: String)
        ensures
            u@ == "ws://127.0.0.1:"@ + decimal(self.port_spec() as nat),
    {
        concat_lit("ws://127.0.0.1:", format_u64(self.port as u64).as_slice())
    }
}

// ───────────────────────────── audio encoding ─────────────────────────────

/// The character of a 6-bit value in the standard base64 alphabet.
pub open spec fn base64_char(v: int) -> char {
    if v < 26 {
        (65 + v) as char
    } else if v < 52 {
        (97 + v - 26) as char
    } else if v < 62 {
        (48 + v - 52) as char
    } else if v == 62 {
        '+'
    } else {
        '/'
    }
}

/// Standard base64 with `=` padding (RFC 4648): each group of three bytes
/// becomes four characters; a final group of one or two bytes is padded.
pub open spec fn base64_standard(b: Seq<u8>) -> Seq<char>
    decreases b.len(),
{
    if b.len() == 0 {
        seq![]
    } else if b.len() == 1 {
        let n = b[0] as int * 65536;
        seq![base64_char(n / 262144), base64_char((n / 4096) % 64), '=', '=']
    } else if b.len() == 2 {
        let n = b[0] as int * 65536 + b[1] as int * 256;
        seq![base64_char(n / 262144), base64_char((n / 4096) % 64), base64_char((n / 64) % 64), '=']
    } else {
        let n = b[0] as int * 65536 + b[1] as int * 256 + b[2] as int;
        seq![
            base64_char(n / 262144),
            base64_char((n / 4096) % 64),
            base64_char((n / 64) % 64),
            base64_char(n % 64),
        ] + base64_standard(b.subrange(3, b.len() as int))
    }
}

/// `base64::engine::general_purpose::STANDARD.encode`: standard base64 with
/// padding.  The crate panics when the encoded length overflows `usize`,
/// which the precondition leaves out.
#[verifier::external_body]
fn base64_encode(bytes: &[u8]) -> (out: String)
    requires
        bytes@.len() / 3 * 4 + 4 <= usize::MAX,
    ensures
        out@ == base64_standard(bytes@),
{
    base64::engine::general_purpose::STANDARD.encode(bytes)
}

/// The WAV recording as the `audio_b64` field of a transcription request.
pub fn encode_audio_as_base64(wav_bytes: &[u8]) -> (out: String)
    requires
        wav_bytes@.len() / 3 * 4 + 4 <= usize::MAX,
    ensures
        out@ == base64_standard(wav_bytes@),
{
    base64_encode(wav_bytes)
}

// ───────────────────────────── transcription ─────────────────────────────

/// `text` after appending a segment, with a space between when `text` is
/// not empty.
pub open spec fn append_segment_spec(text: Seq<char>, segment: Seq<char>) -> Seq<char> {
    if text.len() == 0 {
        segment
    } else {
        text + seq![' '] + segment
    }
}

/// Appends a segment to the text gathered so far.
pub fn append_segment_to_text(text: &mut String, segment: &str)
    ensures
        final(text)@ == append_segment_spec(old(text)@, segment@),
{
    let mut v = chars_of(text.as_str());
    if v.len() > 0 {
        v.push(' ');
    }
    extend_chars(&mut v, chars_of(segment).as_slice());
    *text = string_from(v.as_slice());
}

/// The transcript: the streamed segments when there were any, else the
/// full text the server sent with `done`.
pub open spec fn combine_spec(accumulated: Seq<char>, server_full_text: Seq<char>) -> Seq<char> {
    if accumulated.len() == 0 {
        server_full_text
    } else {
        accumulated
    }
}

/// The transcript from the streamed segments and the server's full text.
pub fn combine_segments_to_text(accumulated: String, server_full_text: String) -> (out: String)
    ensures
        out@ == combine_spec(accumulated@, server_full_text@),
{
    if accumulated.as_str().is_empty() {
        server_full_text
    } else {
        accumulated
    }
}

/// What follows from one reply during a transcription.
pub enum TranscriptStep {
    /// A segment arrived; wait for more.
    Continue,
    /// The transcription ended with this result.
    Finished(Result<String, String>),
}

/// The text gathered from the segments of one transcription.
pub struct TranscriptCollector {
    accumulated: String,
}

/// The text gathered after the segments `segs`.
pub open spec fn gathered(segs: Seq<Seq<char>>) -> Seq<char>
    decreases segs.len(),
{
    if segs.len() == 0 {
        seq![]
    } else {
        append_segment_spec(gathered(segs.drop_last()), segs.last())
    }
}

impl TranscriptCollector {
    pub closed spec fn text(&self) -> Seq<char> {
        self.accumulated@
    }

    /// A collector with no text yet.
    pub fn new() -> (c: Self)
        ensures
            c.text() == Seq::<char>::empty(),
    {
        TranscriptCollector { accumulated: String::new() }
    }

    /// Takes one reply of the server: a segment is appended, `done` ends
    /// with the transcript, `error` ends with its message, and anything
    /// else ends with `unexpected: ` and the reply as `debug` shows it.
    pub fn on_reply(&mut self, reply: ServerReply, debug: &str) -> (step: TranscriptStep)
        ensures
            match reply {
                ServerReply::Segment { text } => final(self).text() == append_segment_spec(
                    old(self).text(),
                    text@,
                ) && step is Continue,
                ServerReply::Done { full_text, .. } => step matches TranscriptStep::Finished(
                    Ok(t),
                ) && t@ == combine_spec(old(self).text(), full_text@),
                ServerReply::Error { msg } => step matches TranscriptStep::Finished(Err(e)) && e@
                    == msg@,
                _ => step matches TranscriptStep::Finished(Err(e)) && e@ == "unexpected: "@
                    + debug@,
            },
    {
        match reply {
            ServerReply::Segment { text } => {
                append_segment_to_text(&mut self.accumulated, text.as_str());
                TranscriptStep::Continue
            },
            ServerReply::Done { full_text, .. } => {
                let acc = string_from(chars_of(self.accumulated.as_str()).as_slice());
                TranscriptStep::Finished(Ok(combine_segments_to_text(acc, full_text)))
            },
            ServerReply::Error { msg } => TranscriptStep::Finished(Err(msg)),
            _ => TranscriptStep::Finished(Err(concat_lit("unexpected: ", chars_of(debug).as_slice()))),
        }
    }
}

/// Law: the transcript of segments followed by `done` is the text gathered
/// from the segments, or the server's full text when that text is empty;
/// a last segment with text leaves the gathered text non-empty.
pub proof fn lemma_transcript_of_segments(segs: Seq<Seq<char>>, full_text: Seq<char>)
    ensures
        combine_spec(gathered(segs), full_text) == (if gathered(segs).len() == 0 {
            full_text
        } else {
            gathered(segs)
        }),
        segs.len() > 0 && segs.last().len() > 0 ==> gathered(segs).len() > 0,
{
}

/// Law: the text gathered from non-empty segments is the segments in the
/// order they arrived, separated by single spaces.
pub proof fn lemma_gathered_is_space_joined(segs: Seq<Seq<char>>)
    requires
        forall|i: int| 0 <= i < segs.len() ==> (#[trigger] segs[i]).len() > 0,
    ensures
        gathered(segs) == join(segs, seq![' ']),
        segs.len() > 0 ==> gathered(segs).len() > 0,
    decreases segs.len(),
{
    if segs.len() > 0 {
        let dl = segs.drop_last();
        assert forall|i: int| 0 <= i < dl.len() implies (#[trigger] dl[i]).len() > 0 by {
            assert(dl[i] == segs[i]);
        }
        lemma_gathered_is_space_joined(dl);
        assert(segs.last() == segs[segs.len() - 1]);
        if segs.len() == 1 {
            assert(segs[0] == segs.last());
        }
    }
}

/// The outcome of an `ensure_model` request from the server's reply.
pub fn ensure_model_outcome(reply: ServerReply, debug: &str) -> (r: Result<(), String>)
    ensures
        match reply {
            ServerReply::Ready { .. } => r is Ok,
            ServerReply::Error { msg } => r matches Err(e) && e@ == msg@,
            _ => r matches Err(e) && e@ == "unexpected: "@ + debug@,
        },
{
    match reply {
        ServerReply::Ready { .. } => Ok(()),
        ServerReply::Error { msg } => Err(msg),
        _ => Err(concat_lit("unexpected: ", chars_of(debug).as_slice())),
    }
}

/// The outcome of a `config` request from the server's reply.
pub fn set_config_outcome(reply: ServerReply, debug: &str) -> (r: Result<(), String>)
    ensures
        match reply {
            ServerReply::ConfigOk => r is Ok,
            _ => r matches Err(e) && e@ == "unexpected: "@ + debug@,
        },
{
    match reply {
        ServerReply::ConfigOk => Ok(()),
        _ => Err(concat_lit("unexpected: ", chars_of(debug).as_slice())),
    }
}

// ───────────────────────────── readiness ─────────────────────────────

/// What waiting for the sidecar does after a health check.
pub enum Readiness {
    /// The sidecar answered.
    Ready,
    /// Check again after a pause.
    Retry,
    /// Give up with this message.
    Failed(String),
}

/// After a health check: ready when it succeeded, else give up once the
/// deadline has passed, else try again.
pub fn readiness_after_health_check(healthy: bool, timed_out: bool, timeout_secs: u64) -> (r:
    Readiness)
    ensures
        healthy ==> r is Ready,
        !healthy && !timed_out ==> r is Retry,
        !healthy && timed_out ==> (r matches Readiness::Failed(m) && m@
            == "sidecar not ready after "@ + decimal(timeout_secs as nat) + "s"@),
{
    if healthy {
        Readiness::Ready
    } else if timed_out {
        let mut v = chars_of("sidecar not ready after ");
        extend_chars(&mut v, format_u64(timeout_secs).as_slice());
        extend_chars(&mut v, chars_of("s").as_slice());
        Readiness::Failed(string_from(v.as_slice()))
    } else {
        Readiness::Retry
    }
}

} // verus!
