//! The line-delimited JSON request/response transport spoken to a persistent
//! worker over its standard streams.
//!
//! A request is one JSON object on one line; exactly one reply line is then
//! read and interpreted.  Encoding is verified down to the characters and
//! proved to stay on one line; the reply line is parsed by `serde_json`
//! behind one trusted item, and everything decided about the parsed fields —
//! disconnection, malformed replies, worker-reported failure, payload
//! extraction — is verified.

use vstd::prelude::*;

use crate::errors::ServiceError;
use crate::json::{escape_seq, line_clean, lemma_escape_line_clean, lemma_line_clean_concat,
    push_escaped};
use crate::strutil::{push_str_chars, str_chars, chars_to_string};

verus! {

/// The commands the worker understands.
#[derive(Clone, Copy, Debug, PartialEq, Eq, Structural)]
pub enum TtsCommand {
    /// Render speech; answered with an audio payload or an error text.
    Synthesize,
    /// Eagerly load and cache a language model; answered success/failure only.
    LoadModel,
    /// Ask the worker to exit cleanly; no reply is awaited.
    Shutdown,
}

impl TtsCommand {
    /// The command's tag on the wire.
    pub open spec fn spec_name(self) -> Seq<char> {
        match self {
            TtsCommand::Synthesize => "synthesize"@,
            TtsCommand::LoadModel => "load_model"@,
            TtsCommand::Shutdown => "shutdown"@,
        }
    }

    /// The command's tag on the wire.
    pub fn name(&self) -> (r: &'static str)
        ensures
            r@ == self.spec_name(),
    {
        match self {
            TtsCommand::Synthesize => "synthesize",
            TtsCommand::LoadModel => "load_model",
            TtsCommand::Shutdown => "shutdown",
        }
    }
}

/// One request to the worker: a command tag plus its optional fields.
/// Absent fields are left off the wire entirely.
pub struct TtsRequest {
    pub command: TtsCommand,
    pub text: Option<String>,
    pub language: Option<String>,
    pub emotion: Option<String>,
    pub use_ssml: Option<bool>,
}

/// An optional string field on the wire: nothing, or
/// `,"<name>":"<escaped value>"`.
pub open spec fn spec_str_field(name: Seq<char>, v: Option<String>) -> Seq<char> {
    match v {
        Some(s) => ",\""@ + name + "\":\""@ + escape_seq(s@) + "\""@,
        None => Seq::empty(),
    }
}

/// An optional boolean field on the wire: nothing, or `,"<name>":true/false`.
pub open spec fn spec_bool_field(name: Seq<char>, v: Option<bool>) -> Seq<char> {
    match v {
        Some(b) => ",\""@ + name + "\":"@ + (if b {
            "true"@
        } else {
            "false"@
        }),
        None => Seq::empty(),
    }
}

/// The exact characters of a request's wire form: the command first, then
/// each present field, in a fixed order.
pub open spec fn spec_encode_request(req: TtsRequest) -> Seq<char> {
    "{\"command\":\""@ + escape_seq(req.command.spec_name()) + "\""@ + spec_str_field(
        "text"@,
        req.text,
    ) + spec_str_field("language"@, req.language) + spec_str_field("emotion"@, req.emotion)
        + spec_bool_field("use_ssml"@, req.use_ssml) + "}"@
}

/// Appends an optional string field to the wire form.
fn push_str_field(out: &mut Vec<char>, name: &str, v: &Option<String>)
    ensures
        final(out)@ == old(out)@ + spec_str_field(name@, *v),
{
    let ghost start = out@;
    match v {
        Some(s) => {
            push_str_chars(out, ",\"");
            push_str_chars(out, name);
            push_str_chars(out, "\":\"");
            let cs = str_chars(s.as_str());
            push_escaped(out, &cs);
            push_str_chars(out, "\"");
            proof {
                assert(out@ =~= start + spec_str_field(name@, *v));
            }
        },
        None => {},
    }
}

/// Appends an optional boolean field to the wire form.
fn push_bool_field(out: &mut Vec<char>, name: &str, v: &Option<bool>)
    ensures
        final(out)@ == old(out)@ + spec_bool_field(name@, *v),
{
    let ghost start = out@;
    match v {
        Some(b) => {
            push_str_chars(out, ",\"");
            push_str_chars(out, name);
            push_str_chars(out, "\":");
            if *b {
                push_str_chars(out, "true");
            } else {
                push_str_chars(out, "false");
            }
            proof {
                assert(out@ =~= start + spec_bool_field(name@, *v));
            }
        },
        None => {},
    }
}

/// Serializes a request to its single-line JSON wire form — the exact
/// characters `spec_encode_request` describes, with no newline anywhere, so
/// writing the line plus one `\n` frames exactly one message.
pub fn encode_request(req: &TtsRequest) -> (r: String)
    ensures
        r@ == spec_encode_request(*req),
        line_clean(r@),
{
    let mut out: Vec<char> = Vec::new();
    push_str_chars(&mut out, "{\"command\":\"");
    let cmd = str_chars(req.command.name());
    push_escaped(&mut out, &cmd);
    push_str_chars(&mut out, "\"");
    push_str_field(&mut out, "text", &req.text);
    push_str_field(&mut out, "language", &req.language);
    push_str_field(&mut out, "emotion", &req.emotion);
    push_bool_field(&mut out, "use_ssml", &req.use_ssml);
    push_str_chars(&mut out, "}");
    proof {
        assert(out@ =~= spec_encode_request(*req));
        lemma_encode_request_line_clean(*req);
    }
    chars_to_string(&out)
}

/// A string literal of the wire syntax holds no line break.
proof fn lemma_wire_literals_clean()
    ensures
        line_clean("{\"command\":\""@),
        line_clean("\""@),
        line_clean(",\""@),
        line_clean("\":\""@),
        line_clean("\":"@),
        line_clean("true"@),
        line_clean("false"@),
        line_clean("}"@),
        line_clean("text"@),
        line_clean("language"@),
        line_clean("emotion"@),
        line_clean("use_ssml"@),
        line_clean("synthesize"@),
        line_clean("load_model"@),
        line_clean("shutdown"@),
{
    reveal_strlit("{\"command\":\"");
    reveal_strlit("\"");
    reveal_strlit(",\"");
    reveal_strlit("\":\"");
    reveal_strlit("\":");
    reveal_strlit("true");
    reveal_strlit("false");
    reveal_strlit("}");
    reveal_strlit("text");
    reveal_strlit("language");
    reveal_strlit("emotion");
    reveal_strlit("use_ssml");
    reveal_strlit("synthesize");
    reveal_strlit("load_model");
    reveal_strlit("shutdown");
}

proof fn lemma_str_field_clean(name: Seq<char>, v: Option<String>)
    requires
        line_clean(name),
        line_clean(",\""@),
        line_clean("\":\""@),
        line_clean("\""@),
    ensures
        line_clean(spec_str_field(name, v)),
{
    match v {
        Some(s) => {
            lemma_escape_line_clean(s@);
            lemma_line_clean_concat(",\""@, name);
            lemma_line_clean_concat(",\""@ + name, "\":\""@);
            lemma_line_clean_concat(",\""@ + name + "\":\""@, escape_seq(s@));
            lemma_line_clean_concat(",\""@ + name + "\":\""@ + escape_seq(s@), "\""@);
        },
        None => {},
    }
}

proof fn lemma_bool_field_clean(name: Seq<char>, v: Option<bool>)
    requires
        line_clean(name),
        line_clean(",\""@),
        line_clean("\":"@),
        line_clean("true"@),
        line_clean("false"@),
    ensures
        line_clean(spec_bool_field(name, v)),
{
    match v {
        Some(b) => {
            lemma_line_clean_concat(",\""@, name);
            lemma_line_clean_concat(",\""@ + name, "\":"@);
            if b {
                lemma_line_clean_concat(",\""@ + name + "\":"@, "true"@);
            } else {
                lemma_line_clean_concat(",\""@ + name + "\":"@, "false"@);
            }
        },
        None => {},
    }
}

/// A request's whole wire form holds no line break.
pub proof fn lemma_encode_request_line_clean(req: TtsRequest)
    ensures
        line_clean(spec_encode_request(req)),
{
    lemma_wire_literals_clean();
    lemma_escape_line_clean(req.command.spec_name());
    lemma_str_field_clean("text"@, req.text);
    lemma_str_field_clean("language"@, req.language);
    lemma_str_field_clean("emotion"@, req.emotion);
    lemma_bool_field_clean("use_ssml"@, req.use_ssml);
    let a = "{\"command\":\""@ + escape_seq(req.command.spec_name());
    lemma_line_clean_concat("{\"command\":\""@, escape_seq(req.command.spec_name()));
    let b = a + "\""@;
    lemma_line_clean_concat(a, "\""@);
    let c = b + spec_str_field("text"@, req.text);
    lemma_line_clean_concat(b, spec_str_field("text"@, req.text));
    let d = c + spec_str_field("language"@, req.language);
    lemma_line_clean_concat(c, spec_str_field("language"@, req.language));
    let e = d + spec_str_field("emotion"@, req.emotion);
    lemma_line_clean_concat(d, spec_str_field("emotion"@, req.emotion));
    let f = e + spec_bool_field("use_ssml"@, req.use_ssml);
    lemma_line_clean_concat(e, spec_bool_field("use_ssml"@, req.use_ssml));
    lemma_line_clean_concat(f, "}"@);
}

// ----- the reply side

/// The fields of one reply line, each `None` where the line lacks it (or
/// carries it with the wrong type).  Which fields must be present, and what
/// their absence means, is decided by the verified interpretation below —
/// never inside the trusted parse.
pub struct RawResponse {
    pub success: Option<bool>,
    pub audio_base64: Option<String>,
    pub sample_rate: Option<u32>,
    pub error: Option<String>,
}

/// The text of an optional string field.
pub open spec fn opt_text(o: Option<String>) -> Option<Seq<char>> {
    match o {
        Some(s) => Some(s@),
        None => None,
    }
}

/// A reply's fields as one mathematical value.
pub open spec fn raw_model(r: RawResponse) -> (
    Option<bool>,
    Option<Seq<char>>,
    Option<u32>,
    Option<Seq<char>>,
) {
    (r.success, opt_text(r.audio_base64), r.sample_rate, opt_text(r.error))
}

/// What `serde_json` extracts from one reply line: `None` where the line is
/// not a JSON document, else the `success`, `audio_base64`, `sample_rate`
/// and `error` fields of it that are present with the right type.
pub uninterp spec fn response_fields_of(line: Seq<char>) -> Option<
    (Option<bool>, Option<Seq<char>>, Option<u32>, Option<Seq<char>>),
>;

/// Relies on `serde_json::from_str::<Value>` and `Value`'s accessors
/// (`get`, `as_bool`, `as_str`, `as_u64`): parsing is a function of the
/// line's characters alone, and each accessor answers `None` where the
/// field is absent or of another type.
#[verifier::external_body]
fn parse_response_fields(line: &str) -> (r: Option<RawResponse>)
    ensures
        match r {
            Some(raw) => response_fields_of(line@) == Some(raw_model(raw)),
            None => response_fields_of(line@) is None,
        },
{
    let v: serde_json::Value = match serde_json::from_str(line) {
        Ok(v) => v,
        Err(_) => return None,
    };
    Some(RawResponse {
        success: v.get("success").and_then(|x| x.as_bool()),
        audio_base64: v.get("audio_base64").and_then(|x| x.as_str()).map(|s| s.to_string()),
        sample_rate: v.get("sample_rate").and_then(|x| x.as_u64()).and_then(|n| u32::try_from(n).ok()),
        error: v.get("error").and_then(|x| x.as_str()).map(|s| s.to_string()),
    })
}

/// Turns the raw outcome of reading the reply line into parsed fields: no
/// line at all (stream closed, process gone mid-call) is `Disconnected`, a
/// line that is not JSON is `MalformedResponse`.
pub fn parse_reply(line: Option<&str>) -> (r: Result<RawResponse, ServiceError>)
    ensures
        match line {
            None => r matches Err(e) && e == ServiceError::Disconnected,
            Some(l) => match r {
                Ok(raw) => response_fields_of(l@) == Some(raw_model(raw)),
                Err(e) => e == ServiceError::MalformedResponse && response_fields_of(l@) is None,
            },
        },
{
    match line {
        None => Err(ServiceError::Disconnected),
        Some(l) => match parse_response_fields(l) {
            Some(raw) => Ok(raw),
            None => Err(ServiceError::MalformedResponse),
        },
    }
}

/// A successful synthesis payload: the audio still in its transportable
/// text form, and the sample rate the worker reported (or the default).
pub struct AudioPayload {
    pub audio_base64: String,
    pub sample_rate: u32,
}

/// The sample rate assumed when the worker reports none.
pub const DEFAULT_SAMPLE_RATE: u32 = 48000;

/// Interprets a parsed reply to `synthesize`.  A missing `success` field is
/// malformed; an explicit failure surfaces the worker's error text verbatim
/// (with a fixed fallback where it sent none); a nominal success without
/// audio data is malformed, never an empty success.
pub fn interpret_synthesize(raw: RawResponse) -> (r: Result<AudioPayload, ServiceError>)
    ensures
        match raw.success {
            None => r matches Err(e) && e == ServiceError::MalformedResponse,
            Some(false) => r matches Err(ServiceError::WorkerReportedFailure(msg)) && msg@ == (
            match raw.error {
                Some(t) => t@,
                None => "Unknown error"@,
            }),
            Some(true) => match raw.audio_base64 {
                None => r matches Err(e) && e == ServiceError::MalformedResponse,
                Some(b) => r matches Ok(p) && p.audio_base64@ == b@ && p.sample_rate == (
                match raw.sample_rate {
                    Some(sr) => sr,
                    None => DEFAULT_SAMPLE_RATE,
                }),
            },
        },
{
    match raw.success {
        None => Err(ServiceError::MalformedResponse),
        Some(false) => Err(ServiceError::WorkerReportedFailure(match raw.error {
            Some(t) => t,
            None => String::from_str("Unknown error"),
        })),
        Some(true) => match raw.audio_base64 {
            None => Err(ServiceError::MalformedResponse),
            Some(b) => Ok(AudioPayload {
                audio_base64: b,
                sample_rate: match raw.sample_rate {
                    Some(sr) => sr,
                    None => DEFAULT_SAMPLE_RATE,
                },
            }),
        },
    }
}

/// Interprets a parsed reply to `load_model` (success/failure only): a
/// missing `success` field is malformed; an explicit failure surfaces the
/// worker's error text verbatim, with a fixed fallback where it sent none.
pub fn interpret_load_model(raw: RawResponse) -> (r: Result<(), ServiceError>)
    ensures
        match raw.success {
            None => r matches Err(e) && e == ServiceError::MalformedResponse,
            Some(false) => r matches Err(ServiceError::WorkerReportedFailure(msg)) && msg@ == (
            match raw.error {
                Some(t) => t@,
                None => "Failed to load model"@,
            }),
            Some(true) => r matches Ok(u) && u == (),
        },
{
    match raw.success {
        None => Err(ServiceError::MalformedResponse),
        Some(false) => Err(ServiceError::WorkerReportedFailure(match raw.error {
            Some(t) => t,
            None => String::from_str("Failed to load model"),
        })),
        Some(true) => Ok(()),
    }
}

/// The whole verified reply path for `synthesize`: framing, parsing and
/// interpretation, stated entirely over the parsed fields of the line.
pub fn synthesize_reply(line: Option<&str>) -> (r: Result<AudioPayload, ServiceError>)
    ensures
        match line {
            None => r matches Err(e) && e == ServiceError::Disconnected,
            Some(l) => match response_fields_of(l@) {
                None => r matches Err(e) && e == ServiceError::MalformedResponse,
                Some((success, audio, rate, error)) => match success {
                    None => r matches Err(e) && e == ServiceError::MalformedResponse,
                    Some(false) => r matches Err(ServiceError::WorkerReportedFailure(msg)) && msg@
                        == (match error {
                        Some(t) => t,
                        None => "Unknown error"@,
                    }),
                    Some(true) => match audio {
                        None => r matches Err(e) && e == ServiceError::MalformedResponse,
                        Some(b) => r matches Ok(p) && p.audio_base64@ == b && p.sample_rate == (
                        match rate {
                            Some(sr) => sr,
                            None => DEFAULT_SAMPLE_RATE,
                        }),
                    },
                },
            },
        },
{
    let raw = match parse_reply(line) {
        Ok(raw) => raw,
        Err(e) => {
            return Err(e);
        },
    };
    interpret_synthesize(raw)
}

/// The whole verified reply path for `load_model`, stated entirely over the
/// parsed fields of the line.
pub fn load_model_reply(line: Option<&str>) -> (r: Result<(), ServiceError>)
    ensures
        match line {
            None => r matches Err(e) && e == ServiceError::Disconnected,
            Some(l) => match response_fields_of(l@) {
                None => r matches Err(e) && e == ServiceError::MalformedResponse,
                Some((success, audio, rate, error)) => match success {
                    None => r matches Err(e) && e == ServiceError::MalformedResponse,
                    Some(false) => r matches Err(ServiceError::WorkerReportedFailure(msg)) && msg@
                        == (match error {
                        Some(t) => t,
                        None => "Failed to load model"@,
                    }),
                    Some(true) => r matches Ok(u) && u == (),
                },
            },
        },
{
    let raw = match parse_reply(line) {
        Ok(raw) => raw,
        Err(e) => {
            return Err(e);
        },
    };
    interpret_load_model(raw)
}

} // verus!
