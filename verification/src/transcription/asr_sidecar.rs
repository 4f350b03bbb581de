//! Generic HTTP ASR sidecar transcription backend: the request rules.
//!
//! The daemon sends WAV audio as a multipart form to a local HTTP sidecar,
//! keeping it independent from Python/PyTorch. This module decides what may
//! be sent, where, with which form fields and credentials, and how a reply
//! is read.

use vstd::prelude::*;
use crate::text::{
    natural_text, opt_chars, same_text, strip_trailing, trim, trim_end_char, trim_str, natural_string,
};
use super::TranscriptionConfig;

verus! {

/// Keep a guardrail so a runaway recording does not create an unbounded
/// multipart request.
pub const MAX_FILE_SIZE: usize = 1024 * 1024 * 1024;

/// A key that trims to something non-empty, trimmed; otherwise none.
pub open spec fn normalized_key(k: Option<Seq<char>>) -> Option<Seq<char>> {
    match k {
        Some(s) => if trim(s).len() > 0 {
            Some(trim(s))
        } else {
            None
        },
        None => None,
    }
}

/// Generic HTTP ASR sidecar backend settings.
#[derive(Debug, Clone)]
pub struct AsrSidecarBackend {
    url: String,
    api_key: Option<String>,
}

impl View for AsrSidecarBackend {
    type V = (Seq<char>, Option<Seq<char>>);

    /// The transcription URL and the API key, if any.
    closed spec fn view(&self) -> (Seq<char>, Option<Seq<char>>) {
        (self.url@, opt_chars(self.api_key))
    }
}

/// Why a request is refused before it is sent.
#[derive(Debug, Clone, Copy, PartialEq, Eq, Structural)]
pub enum SidecarRequestError {
    /// The audio, of this many bytes, is larger than [`MAX_FILE_SIZE`].
    AudioTooLarge(usize),
    /// There is no audio at all.
    EmptyAudio,
    /// The configured URL is empty or white space.
    NoUrl,
}

/// The refusal, if any, for a request of `audio_len` bytes to `url`; the
/// size limit is checked first, then emptiness, then the URL.
pub open spec fn request_refusal(audio_len: int, url: Seq<char>) -> Option<SidecarRequestError> {
    if audio_len > MAX_FILE_SIZE {
        Some(SidecarRequestError::AudioTooLarge(audio_len as usize))
    } else if audio_len == 0 {
        Some(SidecarRequestError::EmptyAudio)
    } else if trim(url).len() == 0 {
        Some(SidecarRequestError::NoUrl)
    } else {
        None
    }
}

/// The message a refusal is reported with.
pub open spec fn refusal_text(e: SidecarRequestError) -> Seq<char> {
    match e {
        SidecarRequestError::AudioTooLarge(len) => "audio file too large ("@ + natural_text(
            len as nat,
        ) + " bytes, max "@ + natural_text(MAX_FILE_SIZE as nat) + " bytes / 1GB)"@,
        SidecarRequestError::EmptyAudio => "cannot transcribe empty audio"@,
        SidecarRequestError::NoUrl => "no ASR sidecar URL configured"@,
    }
}

impl SidecarRequestError {
    /// The message this refusal is reported with.
    pub fn message(&self) -> (r: String)
        ensures
            r@ == refusal_text(*self),
    {
        match self {
            SidecarRequestError::AudioTooLarge(len) => {
                let mut m = "audio file too large (".to_owned();
                m.append(natural_string(*len as u64).as_str());
                m.append(" bytes, max ");
                m.append(natural_string(MAX_FILE_SIZE as u64).as_str());
                m.append(" bytes / 1GB)");
                m
            },
            SidecarRequestError::EmptyAudio => "cannot transcribe empty audio".to_owned(),
            SidecarRequestError::NoUrl => "no ASR sidecar URL configured".to_owned(),
        }
    }
}

/// The text form fields of a request, as (name, value) pairs: the model
/// always, the language unless it is `auto`, the prompt as `hotwords`.
pub open spec fn form_fields_for(language: Seq<char>, model: Seq<char>, prompt: Option<Seq<char>>) -> Seq<(Seq<char>, Seq<char>)> {
    let base = seq![("model"@, model)];
    let with_language = if language != "auto"@ {
        base.push(("language"@, language))
    } else {
        base
    };
    match prompt {
        Some(p) => with_language.push(("hotwords"@, p)),
        None => with_language,
    }
}

/// The characters of each (name, value) pair.
pub open spec fn pair_texts(v: Seq<(String, String)>) -> Seq<(Seq<char>, Seq<char>)> {
    v.map_values(|p: (String, String)| (p.0@, p.1@))
}

impl AsrSidecarBackend {
    /// Create the backend settings from the transcription URL and an optional
    /// API key; a key that is empty once trimmed counts as no key.
    pub fn new(url: String, api_key: Option<String>) -> (r: Self)
        ensures
            r@.0 == url@,
            r@.1 == normalized_key(opt_chars(api_key)),
    {
        let key = match api_key {
            Some(k) => {
                let t = trim_str(k.as_str());
                if t.is_empty() {
                    None
                } else {
                    Some(t.to_owned())
                }
            },
            None => None,
        };
        AsrSidecarBackend { url, api_key: key }
    }

    /// The transcription URL as configured.
    pub fn url(&self) -> (r: &str)
        ensures
            r@ == self@.0,
    {
        self.url.as_str()
    }

    /// The API key, if one is configured.
    pub fn api_key(&self) -> (r: Option<&str>)
        ensures
            match r {
                Some(k) => self@.1 == Some(k@),
                None => self@.1 is None,
            },
    {
        match &self.api_key {
            Some(k) => Some(k.as_str()),
            None => None,
        }
    }

    /// Refuse a request of `audio_len` bytes before any network traffic: too
    /// large, empty, or with no URL configured.
    pub fn check_request(&self, audio_len: usize) -> (r: Result<(), SidecarRequestError>)
        ensures
            match request_refusal(audio_len as int, self@.0) {
                Some(e) => r == Err::<(), SidecarRequestError>(e),
                None => r is Ok,
            },
    {
        if audio_len > MAX_FILE_SIZE {
            return Err(SidecarRequestError::AudioTooLarge(audio_len));
        }
        if audio_len == 0 {
            return Err(SidecarRequestError::EmptyAudio);
        }
        if trim_str(self.url.as_str()).is_empty() {
            return Err(SidecarRequestError::NoUrl);
        }
        Ok(())
    }

    /// The URL the request goes to: trailing slashes removed, since some
    /// endpoints redirect those, which breaks multipart POSTs.
    pub fn endpoint(&self) -> (r: &str)
        ensures
            r@ == trim_end_char(self@.0, '/'),
    {
        strip_trailing(self.url.as_str(), '/')
    }

    /// The `Authorization` header value, `Bearer <key>`, when a key is set.
    pub fn authorization(&self) -> (r: Option<String>)
        ensures
            opt_chars(r) == match self@.1 {
                Some(k) => Some("Bearer "@ + k),
                None => None,
            },
    {
        match &self.api_key {
            Some(k) => {
                let mut header = "Bearer ".to_owned();
                header.append(k.as_str());
                Some(header)
            },
            None => None,
        }
    }
}

/// The text fields of the multipart form (the audio goes in the `file`
/// part): the model always, the language unless it is `auto`, and the
/// prompt, if any, as `hotwords`.
pub fn form_fields(config: &TranscriptionConfig) -> (r: Vec<(String, String)>)
    ensures
        pair_texts(r@) == form_fields_for(config.language@, config.model@, opt_chars(config.prompt)),
{
    let mut fields: Vec<(String, String)> = Vec::new();
    fields.push(("model".to_owned(), config.model.clone()));
    if !same_text(config.language.as_str(), "auto") {
        fields.push(("language".to_owned(), config.language.clone()));
    }
    match &config.prompt {
        Some(p) => {
            fields.push(("hotwords".to_owned(), p.clone()));
        },
        None => {},
    }
    assert(pair_texts(fields@) =~= form_fields_for(config.language@, config.model@, opt_chars(config.prompt)));
    fields
}

/// What the form carries, whatever the other settings: the model first; a
/// `language` field exactly when the language is not `auto`, and then with
/// the configured language; the prompt as the last field, `hotwords`,
/// exactly when one is configured, whether or not a language is sent.
pub proof fn lemma_form_carries_model_language_and_prompt(
    language: Seq<char>,
    model: Seq<char>,
    prompt: Option<Seq<char>>,
)
    ensures
        form_fields_for(language, model, prompt).len() >= 1,
        form_fields_for(language, model, prompt)[0] == ("model"@, model),
        prompt matches Some(p) ==> form_fields_for(language, model, prompt).last() == ("hotwords"@, p),
        (exists|i: int|
            0 <= i < form_fields_for(language, model, prompt).len() && #[trigger] form_fields_for(
                language,
                model,
                prompt,
            )[i].0 == "hotwords"@) <==> prompt is Some,
        (exists|i: int|
            0 <= i < form_fields_for(language, model, prompt).len() && #[trigger] form_fields_for(
                language,
                model,
                prompt,
            )[i].0 == "language"@) <==> language != "auto"@,
        forall|i: int|
            0 <= i < form_fields_for(language, model, prompt).len() && #[trigger] form_fields_for(
                language,
                model,
                prompt,
            )[i].0 == "language"@ ==> form_fields_for(language, model, prompt)[i].1 == language,
{
    reveal_strlit("model");
    reveal_strlit("language");
    reveal_strlit("hotwords");
    let f = form_fields_for(language, model, prompt);
    assert("model"@ != "language"@ && "model"@ != "hotwords"@ && "language"@ != "hotwords"@) by {
        assert("model"@.len() == 5 && "language"@.len() == 8 && "hotwords"@.len() == 8);
        assert("language"@[0] != "hotwords"@[0]);
    }
    if prompt is Some {
        assert(f[f.len() - 1].0 == "hotwords"@);
    }
    if language != "auto"@ {
        assert(f[1].0 == "language"@);
    }
}

/// Response from the ASR sidecar.
#[derive(Debug, Clone)]
pub struct AsrSidecarResponse {
    /// Plain text transcript.
    pub text: String,
}

impl AsrSidecarResponse {
    /// The transcript to type: the reply's text, trimmed.
    pub fn transcript(&self) -> (r: String)
        ensures
            r@ == trim(self.text@),
    {
        trim_str(self.text.as_str()).to_owned()
    }
}

/// The `detail` member of an error reply.
#[derive(Debug, Clone)]
pub enum ErrorDetail {
    /// A JSON string, taken as is.
    Text(String),
    /// Any other JSON value, in its compact JSON rendering.
    Json(String),
}

/// An error reply from the sidecar: `{"error": ...}` from generic sidecars,
/// `{"detail": ...}` from FastAPI ones.
#[derive(Debug, Clone)]
pub struct AsrSidecarErrorResponse {
    /// The `error` member.
    pub error: Option<String>,
    /// The `detail` member.
    pub detail: Option<ErrorDetail>,
}

/// The message an error reply carries: `error` if present, else `detail`,
/// else a fixed fallback.
pub open spec fn error_message(e: AsrSidecarErrorResponse) -> Seq<char> {
    match e.error {
        Some(m) => m@,
        None => match e.detail {
            Some(ErrorDetail::Text(d)) => d@,
            Some(ErrorDetail::Json(d)) => d@,
            None => "unknown sidecar error"@,
        },
    }
}

impl AsrSidecarErrorResponse {
    /// The message this reply carries.
    pub fn message(&self) -> (r: String)
        ensures
            r@ == error_message(*self),
    {
        if let Some(error) = &self.error {
            return error.clone();
        }
        match &self.detail {
            Some(ErrorDetail::Text(detail)) => detail.clone(),
            Some(ErrorDetail::Json(detail)) => detail.clone(),
            None => "unknown sidecar error".to_owned(),
        }
    }
}

/// Whether an HTTP status code is a success (`2xx`), as
/// `StatusCode::is_success` decides it.
pub fn is_success_status(code: u16) -> (r: bool)
    ensures
        r == (200 <= code < 300),
{
    200 <= code && code < 300
}

/// The error a failed reply is reported with.
pub open spec fn failure_text(code: u16, body: Seq<char>, reply: Option<AsrSidecarErrorResponse>) -> Seq<char> {
    "ASR sidecar error ("@ + natural_text(code as nat) + "): "@ + match reply {
        Some(e) => error_message(e),
        None => body,
    }
}

/// The error for a reply with a non-success status `code`: the message of
/// the error reply when the body parsed as one (`reply`), otherwise the raw
/// body.
pub fn failure_message(code: u16, body: &str, reply: Option<&AsrSidecarErrorResponse>) -> (r: String)
    ensures
        r@ == failure_text(
            code,
            body@,
            match reply {
                Some(e) => Some(*e),
                None => None,
            },
        ),
{
    let mut m = "ASR sidecar error (".to_owned();
    m.append(natural_string(code as u64).as_str());
    m.append("): ");
    match reply {
        Some(e) => m.append(e.message().as_str()),
        None => m.append(body),
    }
    m
}

/// What a reply comes to: for a success status, the transcript of the
/// reply body read as `{"text": ...}` (or the reason it could not be read);
/// otherwise the failure message.
pub open spec fn reply_outcome(
    code: u16,
    body: Seq<char>,
    error_reply: Option<AsrSidecarErrorResponse>,
    reply: Result<AsrSidecarResponse, String>,
) -> Result<Seq<char>, Seq<char>> {
    if 200 <= code < 300 {
        match reply {
            Ok(p) => Ok(trim(p.text@)),
            Err(e) => Err(e@),
        }
    } else {
        Err(failure_text(code, body, error_reply))
    }
}

/// The text of a result's either side.
pub open spec fn result_texts(r: Result<String, String>) -> Result<Seq<char>, Seq<char>> {
    match r {
        Ok(t) => Ok(t@),
        Err(e) => Err(e@),
    }
}

/// Turn a sidecar reply into the transcript or the error it is reported
/// with. `error_reply` is the body read as an error reply, if it reads as
/// one; `reply` is the body read as a transcript reply, or why it did not.
/// Which of the two counts is decided by the status `code`.
pub fn reply_result(
    code: u16,
    body: &str,
    error_reply: Option<&AsrSidecarErrorResponse>,
    reply: Result<AsrSidecarResponse, String>,
) -> (r: Result<String, String>)
    ensures
        result_texts(r) == reply_outcome(
            code,
            body@,
            match error_reply {
                Some(e) => Some(*e),
                None => None,
            },
            reply,
        ),
{
    if !is_success_status(code) {
        return Err(failure_message(code, body, error_reply));
    }
    match reply {
        Ok(parsed) => Ok(parsed.transcript()),
        Err(why) => Err(why),
    }
}

/// A reply with a success status whose body reads as a transcript reply
/// gives that reply's text, trimmed, whatever it is: an empty transcript
/// (a recording of silence) is a result, not an error. A success status
/// whose body does not read gives the reason as the error; any other status
/// gives the failure message, whatever the body held.
pub proof fn lemma_reply_result_follows_the_status(
    code: u16,
    body: Seq<char>,
    error_reply: Option<AsrSidecarErrorResponse>,
    reply: Result<AsrSidecarResponse, String>,
)
    ensures
        200 <= code < 300 ==> (reply matches Ok(p) ==> reply_outcome(code, body, error_reply, reply)
            == Ok::<Seq<char>, Seq<char>>(trim(p.text@))),
        200 <= code < 300 ==> (reply matches Err(e) ==> reply_outcome(code, body, error_reply, reply)
            == Err::<Seq<char>, Seq<char>>(e@)),
        !(200 <= code < 300) ==> reply_outcome(code, body, error_reply, reply) == Err::<
            Seq<char>,
            Seq<char>,
        >(failure_text(code, body, error_reply)),
        reply_outcome(code, body, error_reply, reply) is Ok <==> (200 <= code < 300 && reply is Ok),
{
}

} // verus!
