//! Requests to turn recorded speech into text.
use crate::base64_text;
use crate::text;
use vstd::prelude::*;

verus! {

/// The most bytes that a recording may have.
pub const MAX_AUDIO_SIZE_BYTES: usize = 26_214_400;

/// How long an outside service may take to answer, in seconds.
pub const OPENAI_TIMEOUT_SECONDS: u64 = 30;

/// Why a request is refused.
#[derive(Debug, Clone, Copy, PartialEq, Eq, Structural)]
pub enum Refusal {
    BadRequest,
    Unauthorized,
    PaymentRequired,
    PreconditionFailed,
    PayloadTooLarge,
    UnsupportedMediaType,
    TooManyRequests,
    InternalServerError,
    BadGateway,
    ServiceUnavailable,
    GatewayTimeout,
}

/// The HTTP status of a refusal.
pub open spec fn status_code(r: Refusal) -> u16 {
    match r {
        Refusal::BadRequest => 400,
        Refusal::Unauthorized => 401,
        Refusal::PaymentRequired => 402,
        Refusal::PreconditionFailed => 412,
        Refusal::PayloadTooLarge => 413,
        Refusal::UnsupportedMediaType => 415,
        Refusal::TooManyRequests => 429,
        Refusal::InternalServerError => 500,
        Refusal::BadGateway => 502,
        Refusal::ServiceUnavailable => 503,
        Refusal::GatewayTimeout => 504,
    }
}

impl Refusal {
    /// The HTTP status.
    pub fn code(self) -> (r: u16)
        ensures
            r == status_code(self),
    {
        match self {
            Refusal::BadRequest => 400,
            Refusal::Unauthorized => 401,
            Refusal::PaymentRequired => 402,
            Refusal::PreconditionFailed => 412,
            Refusal::PayloadTooLarge => 413,
            Refusal::UnsupportedMediaType => 415,
            Refusal::TooManyRequests => 429,
            Refusal::InternalServerError => 500,
            Refusal::BadGateway => 502,
            Refusal::ServiceUnavailable => 503,
            Refusal::GatewayTimeout => 504,
        }
    }
}

// The recording.

/// The file extension for a type of recordings, if the type is supported.
pub open spec fn extension_of(mime_type: Seq<char>) -> Option<Seq<char>> {
    if mime_type == "audio/webm"@ || mime_type == "audio/webm;codecs=opus"@ {
        Some("webm"@)
    } else if mime_type == "audio/mp4"@ {
        Some("mp4"@)
    } else if mime_type == "audio/mpeg"@ {
        Some("mp3"@)
    } else if mime_type == "audio/mpga"@ {
        Some("mpga"@)
    } else if mime_type == "audio/m4a"@ {
        Some("m4a"@)
    } else if mime_type == "audio/wav"@ || mime_type == "audio/x-wav"@ {
        Some("wav"@)
    } else {
        None
    }
}

fn find_extension(mime_type: &str) -> (r: Option<&'static str>)
    ensures
        match r {
            Some(e) => extension_of(mime_type@) == Some(e@),
            None => extension_of(mime_type@) is None,
        },
{
    if text::same(mime_type, "audio/webm") || text::same(mime_type, "audio/webm;codecs=opus") {
        Some("webm")
    } else if text::same(mime_type, "audio/mp4") {
        Some("mp4")
    } else if text::same(mime_type, "audio/mpeg") {
        Some("mp3")
    } else if text::same(mime_type, "audio/mpga") {
        Some("mpga")
    } else if text::same(mime_type, "audio/m4a") {
        Some("m4a")
    } else if text::same(mime_type, "audio/wav") || text::same(mime_type, "audio/x-wav") {
        Some("wav")
    } else {
        None
    }
}

/// Why a recording is refused: the first of the reasons that the data is no
/// base64, that it is too large, and that its type is not supported.
pub open spec fn audio_refusal(audio: Seq<char>, mime_type: Seq<char>) -> Option<Refusal> {
    match base64_text::bytes_of(audio) {
        None => Some(Refusal::BadRequest),
        Some(bytes) => if bytes.len() > MAX_AUDIO_SIZE_BYTES {
            Some(Refusal::PayloadTooLarge)
        } else if extension_of(mime_type) is None {
            Some(Refusal::UnsupportedMediaType)
        } else {
            None
        },
    }
}

/// Checks a recording: its bytes and the extension of its file, or why it is
/// refused.
pub fn validate_audio_input(audio: &str, mime_type: &str) -> (r: Result<
    (Vec<u8>, &'static str),
    Refusal,
>)
    ensures
        match r {
            Ok((bytes, extension)) => {
                &&& audio_refusal(audio@, mime_type@) is None
                &&& base64_text::bytes_of(audio@) == Some(bytes@)
                &&& extension_of(mime_type@) == Some(extension@)
            },
            Err(why) => audio_refusal(audio@, mime_type@) == Some(why),
        },
{
    let audio_bytes = match base64_text::decode(audio) {
        Some(bytes) => bytes,
        None => {
            return Err(Refusal::BadRequest);
        },
    };
    proof {
        base64_text::law_reading_undoes_writing(audio_bytes@);
    }
    if audio_bytes.len() > MAX_AUDIO_SIZE_BYTES {
        return Err(Refusal::PayloadTooLarge);
    }
    match find_extension(mime_type) {
        Some(extension) => Ok((audio_bytes, extension)),
        None => Err(Refusal::UnsupportedMediaType),
    }
}

// Requests to outside services.

/// A setting that need not be a text.
pub enum Setting {
    Missing,
    NotText,
    Text(String),
}

/// A form with a recording that is sent to an outside service.
pub struct TranscriptionRequest {
    pub url: String,
    /// The name and the value of the header with the key.
    pub key_header: (&'static str, String),
    pub file_name: String,
    pub mime_type: String,
    pub audio: Vec<u8>,
    /// The names and values of the other fields, in order.
    pub fields: Vec<(&'static str, &'static str)>,
    pub timeout_seconds: u64,
}

/// The fields of a form.
pub open spec fn field_views(fields: Seq<(&str, &str)>) -> Seq<(Seq<char>, Seq<char>)> {
    fields.map_values(|f: (&str, &str)| (f.0@, f.1@))
}

/// The part of a request that comes from the recording.
pub open spec fn carries(
    q: TranscriptionRequest,
    bytes: Seq<u8>,
    extension: Seq<char>,
    mime_type: Seq<char>,
) -> bool {
    &&& q.audio@ == bytes
    &&& q.file_name@ == "audio."@ + extension
    &&& q.mime_type@ == mime_type
    &&& q.timeout_seconds == OPENAI_TIMEOUT_SECONDS
}

/// The recording is accepted, and the request carries it.
pub open spec fn carries_recording(
    q: TranscriptionRequest,
    audio: Seq<char>,
    mime_type: Seq<char>,
) -> bool {
    &&& audio_refusal(audio, mime_type) is None
    &&& base64_text::bytes_of(audio) == Some(q.audio@)
    &&& carries(q, q.audio@, extension_of(mime_type)->0, mime_type)
}

/// Where OpenAI is reached: at the host configured, if that is a text.
pub open spec fn openai_host_of(host: Setting) -> Seq<char> {
    match host {
        Setting::Text(h) => h@,
        _ => "https://api.openai.com"@,
    }
}

/// The key and the host of OpenAI. Without a key there is nothing to send.
pub fn get_openai_config(api_key: Option<String>, host: Setting) -> (r: Result<
    (String, String),
    Refusal,
>)
    ensures
        match (api_key, r) {
            (Some(k), Ok((key, h))) => key == k && h@ == openai_host_of(host),
            (None, Err(why)) => why == Refusal::PreconditionFailed,
            _ => false,
        },
{
    match api_key {
        Some(key) => {
            let openai_host = match host {
                Setting::Text(h) => h,
                _ => "https://api.openai.com".to_owned(),
            };
            Ok((key, openai_host))
        },
        None => Err(Refusal::PreconditionFailed),
    }
}

/// A request to OpenAI.
pub open spec fn is_openai_request(q: TranscriptionRequest, key: Seq<char>, host: Seq<char>) -> bool {
    &&& q.url@ == host + "/v1/audio/transcriptions"@
    &&& q.key_header.0@ == "Authorization"@
    &&& q.key_header.1@ == "Bearer "@ + key
    &&& field_views(q.fields@) == seq![("model"@, "whisper-1"@), ("response_format"@, "json"@)]
}

/// The request to OpenAI for a recording.
pub fn openai_request(
    audio_bytes: Vec<u8>,
    file_extension: &str,
    mime_type: &str,
    api_key: &str,
    openai_host: &str,
) -> (q: TranscriptionRequest)
    ensures
        carries(q, audio_bytes@, file_extension@, mime_type@),
        is_openai_request(q, api_key@, openai_host@),
{
    let fields = vec![("model", "whisper-1"), ("response_format", "json")];
    assert(field_views(fields@) =~= seq![
        ("model"@, "whisper-1"@),
        ("response_format"@, "json"@),
    ]);
    TranscriptionRequest {
        url: text::concat(openai_host, "/v1/audio/transcriptions"),
        key_header: ("Authorization", text::concat("Bearer ", api_key)),
        file_name: text::concat("audio.", file_extension),
        mime_type: mime_type.to_owned(),
        audio: audio_bytes,
        fields,
        timeout_seconds: OPENAI_TIMEOUT_SECONDS,
    }
}

/// The request to OpenAI for a recording as it came in: first the recording is
/// checked, then the configuration.
pub fn transcribe_handler(audio: &str, mime_type: &str, api_key: Option<String>, host: Setting) -> (r:
    Result<TranscriptionRequest, Refusal>)
    ensures
        match r {
            Ok(q) => {
                &&& api_key is Some
                &&& carries_recording(q, audio@, mime_type@)
                &&& is_openai_request(q, api_key->0@, openai_host_of(host))
            },
            Err(why) => match audio_refusal(audio@, mime_type@) {
                Some(reason) => why == reason,
                None => api_key is None && why == Refusal::PreconditionFailed,
            },
        },
{
    let (bytes, extension) = match validate_audio_input(audio, mime_type) {
        Ok(ok) => ok,
        Err(why) => {
            return Err(why);
        },
    };
    match get_openai_config(api_key, host) {
        Ok((key, openai_host)) => Ok(
            openai_request(bytes, extension, mime_type, key.as_str(), openai_host.as_str()),
        ),
        Err(why) => Err(why),
    }
}

/// What came of sending a request.
pub enum SendOutcome {
    /// The recording does not fit into a form.
    NoForm,
    /// There is no client to send with.
    NoClient,
    /// The answer took too long.
    TimedOut,
    /// The service cannot be reached.
    NotSent,
    /// The service answered with an error: its status and the text with it.
    Failed { status: u16, error: String },
    /// The service answered with something that is no transcript.
    Unreadable,
    /// The service answered with the text.
    Transcribed { text: String },
}

/// The refusal for an answer of OpenAI with an error.
pub open spec fn openai_refusal(status: u16) -> Refusal {
    if status == 401 {
        Refusal::Unauthorized
    } else if status == 429 {
        Refusal::TooManyRequests
    } else {
        Refusal::BadGateway
    }
}

/// The refusal for an answer of ElevenLabs with an error, by its text.
pub open spec fn elevenlabs_refusal(error: Seq<char>) -> Refusal {
    if text::holds_text(error, "Unauthorized"@) || text::holds_text(error, "Invalid API key"@) {
        Refusal::Unauthorized
    } else if text::holds_text(error, "quota"@) || text::holds_text(error, "limit"@) {
        Refusal::PaymentRequired
    } else {
        Refusal::BadGateway
    }
}

/// What a request comes to, given the refusal for an answer with an error.
pub open spec fn sent(o: SendOutcome, refused: spec_fn(u16, Seq<char>) -> Refusal) -> Result<
    Seq<char>,
    Refusal,
> {
    match o {
        SendOutcome::NoForm => Err(Refusal::InternalServerError),
        SendOutcome::NoClient => Err(Refusal::InternalServerError),
        SendOutcome::TimedOut => Err(Refusal::GatewayTimeout),
        SendOutcome::NotSent => Err(Refusal::ServiceUnavailable),
        SendOutcome::Failed { status, error } => Err(refused(status, error@)),
        SendOutcome::Unreadable => Err(Refusal::InternalServerError),
        SendOutcome::Transcribed { text } => Ok(text@),
    }
}

/// The result of a transcription.
pub open spec fn transcript_view(r: Result<String, Refusal>) -> Result<Seq<char>, Refusal> {
    match r {
        Ok(t) => Ok(t@),
        Err(why) => Err(why),
    }
}

/// What a request to OpenAI comes to.
pub fn openai_outcome(o: SendOutcome) -> (r: Result<String, Refusal>)
    ensures
        transcript_view(r) == sent(o, |status: u16, error: Seq<char>| openai_refusal(status)),
{
    match o {
        SendOutcome::NoForm => Err(Refusal::InternalServerError),
        SendOutcome::NoClient => Err(Refusal::InternalServerError),
        SendOutcome::TimedOut => Err(Refusal::GatewayTimeout),
        SendOutcome::NotSent => Err(Refusal::ServiceUnavailable),
        SendOutcome::Failed { status, error: _ } => {
            if status == 401 {
                Err(Refusal::Unauthorized)
            } else if status == 429 {
                Err(Refusal::TooManyRequests)
            } else {
                Err(Refusal::BadGateway)
            }
        },
        SendOutcome::Unreadable => Err(Refusal::InternalServerError),
        SendOutcome::Transcribed { text } => Ok(text),
    }
}

// ElevenLabs.

/// The key of ElevenLabs, and whether it still has to be moved to the secrets.
pub struct ElevenLabsKey {
    pub key: String,
    pub migrate: bool,
}

/// The key of ElevenLabs, and whether it has to be moved: it is kept among the
/// secrets, or else among the other settings, from where it is moved.
pub open spec fn elevenlabs_key_of(secret: Option<String>, plain: Setting) -> Option<
    (Seq<char>, bool),
> {
    match secret {
        Some(key) => Some((key@, false)),
        None => match plain {
            Setting::Text(key) => Some((key@, true)),
            _ => None,
        },
    }
}

/// Finds the key of ElevenLabs. One that is not among the secrets is to be moved
/// there.
pub fn elevenlabs_key(secret: Option<String>, plain: Setting) -> (r: Result<ElevenLabsKey, Refusal>)
    ensures
        match r {
            Ok(k) => elevenlabs_key_of(secret, plain) == Some((k.key@, k.migrate)),
            Err(why) => elevenlabs_key_of(secret, plain) is None && why
                == Refusal::PreconditionFailed,
        },
{
    match secret {
        Some(key) => Ok(ElevenLabsKey { key, migrate: false }),
        None => match plain {
            Setting::Text(key) => Ok(ElevenLabsKey { key, migrate: true }),
            _ => Err(Refusal::PreconditionFailed),
        },
    }
}

/// A request to ElevenLabs.
pub open spec fn is_elevenlabs_request(q: TranscriptionRequest, key: Seq<char>) -> bool {
    &&& q.url@ == "https://api.elevenlabs.io/v1/speech-to-text"@
    &&& q.key_header.0@ == "xi-api-key"@
    &&& q.key_header.1@ == key
    &&& field_views(q.fields@) == seq![
        ("model_id"@, "scribe_v1"@),
        ("tag_audio_events"@, "false"@),
        ("diarize"@, "false"@),
    ]
}

/// The request to ElevenLabs for a recording.
pub fn elevenlabs_request(audio_bytes: Vec<u8>, file_extension: &str, mime_type: &str, api_key: &str)
    -> (q: TranscriptionRequest)
    ensures
        carries(q, audio_bytes@, file_extension@, mime_type@),
        is_elevenlabs_request(q, api_key@),
{
    let fields = vec![
        ("model_id", "scribe_v1"),
        ("tag_audio_events", "false"),
        ("diarize", "false"),
    ];
    assert(field_views(fields@) =~= seq![
        ("model_id"@, "scribe_v1"@),
        ("tag_audio_events"@, "false"@),
        ("diarize"@, "false"@),
    ]);
    TranscriptionRequest {
        url: "https://api.elevenlabs.io/v1/speech-to-text".to_owned(),
        key_header: ("xi-api-key", api_key.to_owned()),
        file_name: text::concat("audio.", file_extension),
        mime_type: mime_type.to_owned(),
        audio: audio_bytes,
        fields,
        timeout_seconds: OPENAI_TIMEOUT_SECONDS,
    }
}

/// The request to ElevenLabs for a recording as it came in, and whether the key has
/// to be moved to the secrets: first the recording is checked, then the key.
pub fn transcribe_elevenlabs_handler(
    audio: &str,
    mime_type: &str,
    secret: Option<String>,
    plain: Setting,
) -> (r: Result<(TranscriptionRequest, bool), Refusal>)
    ensures
        match r {
            Ok((q, migrate)) => {
                &&& carries_recording(q, audio@, mime_type@)
                &&& is_elevenlabs_request(q, q.key_header.1@)
                &&& elevenlabs_key_of(secret, plain) == Some((q.key_header.1@, migrate))
            },
            Err(why) => match audio_refusal(audio@, mime_type@) {
                Some(reason) => why == reason,
                None => elevenlabs_key_of(secret, plain) is None && why
                    == Refusal::PreconditionFailed,
            },
        },
{
    let (bytes, extension) = match validate_audio_input(audio, mime_type) {
        Ok(ok) => ok,
        Err(why) => {
            return Err(why);
        },
    };
    match elevenlabs_key(secret, plain) {
        Ok(k) => {
            let q = elevenlabs_request(bytes, extension, mime_type, k.key.as_str());
            Ok((q, k.migrate))
        },
        Err(why) => Err(why),
    }
}

/// What a request to ElevenLabs comes to.
pub fn elevenlabs_outcome(o: SendOutcome) -> (r: Result<String, Refusal>)
    ensures
        transcript_view(r) == sent(o, |status: u16, error: Seq<char>| elevenlabs_refusal(error)),
{
    match o {
        SendOutcome::NoForm => Err(Refusal::InternalServerError),
        SendOutcome::NoClient => Err(Refusal::InternalServerError),
        SendOutcome::TimedOut => Err(Refusal::GatewayTimeout),
        SendOutcome::NotSent => Err(Refusal::ServiceUnavailable),
        SendOutcome::Failed { status: _, error } => {
            if text::contains_text(error.as_str(), "Unauthorized") || text::contains_text(
                error.as_str(),
                "Invalid API key",
            ) {
                Err(Refusal::Unauthorized)
            } else if text::contains_text(error.as_str(), "quota") || text::contains_text(
                error.as_str(),
                "limit",
            ) {
                Err(Refusal::PaymentRequired)
            } else {
                Err(Refusal::BadGateway)
            }
        },
        SendOutcome::Unreadable => Err(Refusal::InternalServerError),
        SendOutcome::Transcribed { text } => Ok(text),
    }
}

// Speech recognition on this machine.

/// What came of recognising speech on this machine.
pub enum LocalOutcome {
    /// The runtime is not there or cannot be loaded.
    NoRuntime,
    /// The model cannot be loaded.
    NoModel,
    /// The model is unusable since an earlier use of it crashed.
    Poisoned,
    /// The recording cannot be recognised.
    NotTranscribed,
    /// The recognition crashed.
    Crashed,
    Transcribed { text: String },
}

/// What a recognition on this machine comes to.
pub fn local_outcome(o: LocalOutcome) -> (r: Result<String, Refusal>)
    ensures
        r == match o {
            LocalOutcome::NoRuntime => Err::<String, Refusal>(Refusal::ServiceUnavailable),
            LocalOutcome::NoModel => Err(Refusal::ServiceUnavailable),
            LocalOutcome::Poisoned => Err(Refusal::InternalServerError),
            LocalOutcome::NotTranscribed => Err(Refusal::InternalServerError),
            LocalOutcome::Crashed => Err(Refusal::InternalServerError),
            LocalOutcome::Transcribed { text } => Ok(text),
        },
{
    match o {
        LocalOutcome::NoRuntime => Err(Refusal::ServiceUnavailable),
        LocalOutcome::NoModel => Err(Refusal::ServiceUnavailable),
        LocalOutcome::Poisoned => Err(Refusal::InternalServerError),
        LocalOutcome::NotTranscribed => Err(Refusal::InternalServerError),
        LocalOutcome::Crashed => Err(Refusal::InternalServerError),
        LocalOutcome::Transcribed { text } => Ok(text),
    }
}

/// Which ways to recognise speech are set up.
#[derive(Debug, Clone, Copy, PartialEq, Eq, Structural)]
pub struct DictationConfig {
    pub elevenlabs: bool,
    pub local: bool,
    pub onnx_runtime_installed: bool,
    pub model_installed: bool,
}

/// Tells which ways to recognise speech are set up. A key of ElevenLabs may be
/// among the secrets or among the other settings; recognition on this machine
/// takes both the runtime and the model.
pub fn check_dictation_config(secret_key: bool, plain_key: bool, has_ort: bool, has_model: bool) -> (r:
    DictationConfig)
    ensures
        r.elevenlabs == (secret_key || plain_key),
        r.local == (has_ort && has_model),
        r.onnx_runtime_installed == has_ort,
        r.model_installed == has_model,
{
    DictationConfig {
        elevenlabs: secret_key || plain_key,
        local: has_ort && has_model,
        onnx_runtime_installed: has_ort,
        model_installed: has_model,
    }
}

// Laws.

/// Every recording of a supported type and size is accepted.
pub proof fn law_good_recordings_are_accepted(bytes: Seq<u8>, mime_type: Seq<char>)
    requires
        bytes.len() <= MAX_AUDIO_SIZE_BYTES,
        extension_of(mime_type) is Some,
    ensures
        audio_refusal(base64_text::base64_of(bytes), mime_type) is None,
{
    base64_text::law_reading_undoes_writing(bytes);
}

/// A recording that is too large is refused as such, whatever its type.
pub proof fn law_size_is_checked_before_type(bytes: Seq<u8>, mime_type: Seq<char>)
    requires
        bytes.len() > MAX_AUDIO_SIZE_BYTES,
    ensures
        audio_refusal(base64_text::base64_of(bytes), mime_type) == Some(Refusal::PayloadTooLarge),
{
    base64_text::law_reading_undoes_writing(bytes);
}

/// A refused recording is answered with one of three statuses: 400, 413 or 415.
pub proof fn law_refused_recordings(audio: Seq<char>, mime_type: Seq<char>)
    requires
        audio_refusal(audio, mime_type) is Some,
    ensures
        ({
            let code = status_code(audio_refusal(audio, mime_type)->0);
            code == 400 || code == 413 || code == 415
        }),
{
}

} // verus!
