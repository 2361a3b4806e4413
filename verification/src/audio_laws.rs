//! What a recording is sent as, and what comes of sending it.
use crate::audio;
use crate::audio::{
    DictationConfig, LocalOutcome, Refusal, SendOutcome, Setting, TranscriptionRequest,
};
use crate::base64_text;
use crate::text;
use vstd::prelude::*;

verus! {

// Recordings.

proof fn lemma_types_differ()
    ensures
        "audio/webm"@ != "audio/mp4"@,
        "audio/webm"@ != "audio/mpeg"@,
        "audio/webm"@ != "audio/mpga"@,
        "audio/webm"@ != "audio/m4a"@,
        "audio/webm"@ != "audio/wav"@,
        "audio/webm"@ != "audio/x-wav"@,
        "audio/webm;codecs=opus"@ != "audio/mp4"@,
        "audio/webm;codecs=opus"@ != "audio/mpeg"@,
        "audio/webm;codecs=opus"@ != "audio/mpga"@,
        "audio/webm;codecs=opus"@ != "audio/m4a"@,
        "audio/webm;codecs=opus"@ != "audio/wav"@,
        "audio/webm;codecs=opus"@ != "audio/x-wav"@,
        "audio/mp4"@ != "audio/mpeg"@,
        "audio/mp4"@ != "audio/mpga"@,
        "audio/mp4"@ != "audio/m4a"@,
        "audio/mp4"@ != "audio/wav"@,
        "audio/mp4"@ != "audio/x-wav"@,
        "audio/mpeg"@ != "audio/mpga"@,
        "audio/mpeg"@ != "audio/m4a"@,
        "audio/mpeg"@ != "audio/wav"@,
        "audio/mpeg"@ != "audio/x-wav"@,
        "audio/mpga"@ != "audio/m4a"@,
        "audio/mpga"@ != "audio/wav"@,
        "audio/mpga"@ != "audio/x-wav"@,
        "audio/m4a"@ != "audio/wav"@,
        "audio/m4a"@ != "audio/x-wav"@,
{
    reveal_strlit("audio/webm");
    reveal_strlit("audio/webm;codecs=opus");
    reveal_strlit("audio/mp4");
    reveal_strlit("audio/mpeg");
    reveal_strlit("audio/mpga");
    reveal_strlit("audio/m4a");
    reveal_strlit("audio/wav");
    reveal_strlit("audio/x-wav");
    assert("audio/webm"@.len() == 10 && "audio/webm"@[6] == 'w' && "audio/webm"@[7] == 'e');
    assert("audio/webm;codecs=opus"@.len() == 22);
    assert("audio/mp4"@.len() == 9 && "audio/mp4"@[7] == 'p' && "audio/mp4"@[6] == 'm');
    assert("audio/mpeg"@.len() == 10 && "audio/mpeg"@[8] == 'e' && "audio/mpeg"@[6] == 'm');
    assert("audio/mpga"@.len() == 10 && "audio/mpga"@[8] == 'g' && "audio/mpga"@[6] == 'm');
    assert("audio/m4a"@.len() == 9 && "audio/m4a"@[7] == '4' && "audio/m4a"@[6] == 'm');
    assert("audio/wav"@.len() == 9 && "audio/wav"@[6] == 'w');
    assert("audio/x-wav"@.len() == 11);
}

/// The type of recordings that a file extension stands for.
pub open spec fn is_of_type(extension: Seq<char>, mime_type: Seq<char>) -> bool {
    ||| extension == "webm"@ && (mime_type == "audio/webm"@ || mime_type
        == "audio/webm;codecs=opus"@)
    ||| extension == "mp4"@ && mime_type == "audio/mp4"@
    ||| extension == "mp3"@ && mime_type == "audio/mpeg"@
    ||| extension == "mpga"@ && mime_type == "audio/mpga"@
    ||| extension == "m4a"@ && mime_type == "audio/m4a"@
    ||| extension == "wav"@ && (mime_type == "audio/wav"@ || mime_type == "audio/x-wav"@)
}

/// A type of recordings is supported if and only if a file extension stands for it, and
/// that is its extension.
pub proof fn law_supported_types(mime_type: Seq<char>, extension: Seq<char>)
    ensures
        audio::extension_of(mime_type) == Some(extension) <==> is_of_type(extension, mime_type),
{
    lemma_types_differ();
}

/// A recording may have twenty-five mebibytes.
pub proof fn law_largest_recording()
    ensures
        audio::MAX_AUDIO_SIZE_BYTES == 25 * 1024 * 1024,
        audio::OPENAI_TIMEOUT_SECONDS == 30,
{
}

/// What is no base64 is a bad request; what is too large is refused as such; what is of
/// no supported type is refused as such; everything else is accepted.
pub proof fn law_reasons_to_refuse(audio: Seq<char>, mime_type: Seq<char>, bytes: Seq<u8>)
    ensures
        (forall|b: Seq<u8>| #[trigger] base64_text::base64_of(b) != audio)
            ==> audio::audio_refusal(audio, mime_type) == Some(Refusal::BadRequest),
        base64_text::base64_of(bytes) == audio ==> {
            &&& bytes.len() > 25 * 1024 * 1024 ==> audio::audio_refusal(audio, mime_type) == Some(
                Refusal::PayloadTooLarge,
            )
            &&& bytes.len() <= 25 * 1024 * 1024 && (forall|e: Seq<char>| !is_of_type(e, mime_type))
                ==> audio::audio_refusal(audio, mime_type) == Some(Refusal::UnsupportedMediaType)
            &&& bytes.len() <= 25 * 1024 * 1024 && (exists|e: Seq<char>| is_of_type(e, mime_type))
                ==> audio::audio_refusal(audio, mime_type) is None
        },
{
    if base64_text::base64_of(bytes) == audio {
        base64_text::law_reading_undoes_writing(bytes);
    }
    match audio::extension_of(mime_type) {
        Some(e) => {
            law_supported_types(mime_type, e);
        },
        None => {
            assert forall|e: Seq<char>| !is_of_type(e, mime_type) by {
                law_supported_types(mime_type, e);
            }
        },
    }
}

/// Each refusal has the status that HTTP gives it.
pub proof fn law_statuses()
    ensures
        audio::status_code(Refusal::BadRequest) == 400,
        audio::status_code(Refusal::Unauthorized) == 401,
        audio::status_code(Refusal::PaymentRequired) == 402,
        audio::status_code(Refusal::PreconditionFailed) == 412,
        audio::status_code(Refusal::PayloadTooLarge) == 413,
        audio::status_code(Refusal::UnsupportedMediaType) == 415,
        audio::status_code(Refusal::TooManyRequests) == 429,
        audio::status_code(Refusal::InternalServerError) == 500,
        audio::status_code(Refusal::BadGateway) == 502,
        audio::status_code(Refusal::ServiceUnavailable) == 503,
        audio::status_code(Refusal::GatewayTimeout) == 504,
{
}

// Requests.

/// A field of a form is seen as it is.
pub proof fn law_fields_are_seen_as_they_are(fields: Seq<(&str, &str)>, i: int)
    requires
        0 <= i < fields.len(),
    ensures
        audio::field_views(fields).len() == fields.len(),
        audio::field_views(fields)[i].0 == fields[i].0@,
        audio::field_views(fields)[i].1 == fields[i].1@,
{
}

/// A request carries the bytes of the recording, under a file name with the extension of
/// its type, and waits half a minute.
pub proof fn law_request_carries_the_recording(
    q: TranscriptionRequest,
    bytes: Seq<u8>,
    mime_type: Seq<char>,
)
    requires
        audio::carries_recording(q, base64_text::base64_of(bytes), mime_type),
    ensures
        q.audio@ == bytes,
        exists|e: Seq<char>| is_of_type(e, mime_type) && q.file_name@ == "audio."@ + e,
        q.mime_type@ == mime_type,
        q.timeout_seconds == 30,
        bytes.len() <= 25 * 1024 * 1024,
{
    base64_text::law_reading_undoes_writing(bytes);
    let e = audio::extension_of(mime_type)->0;
    law_supported_types(mime_type, e);
    assert(is_of_type(e, mime_type) && q.file_name@ == "audio."@ + e);
}

/// What a request carries is what it is given.
pub proof fn law_request_carries_what_it_is_given(
    q: TranscriptionRequest,
    bytes: Seq<u8>,
    extension: Seq<char>,
    mime_type: Seq<char>,
)
    requires
        audio::carries(q, bytes, extension, mime_type),
    ensures
        q.audio@ == bytes,
        q.file_name@ == "audio."@ + extension,
        q.mime_type@ == mime_type,
        q.timeout_seconds == 30,
{
}

/// The host of OpenAI is the one that is configured as a text, or else its own.
pub proof fn law_host_of_openai(host: Setting)
    ensures
        host matches Setting::Text(h) ==> audio::openai_host_of(host) == h@,
        !(host is Text) ==> audio::openai_host_of(host) == "https://api.openai.com"@,
{
}

/// A request to OpenAI goes to the host with the key, and asks for a model and a format.
pub proof fn law_requests_to_openai(q: TranscriptionRequest, key: Seq<char>, host: Seq<char>)
    requires
        audio::is_openai_request(q, key, host),
    ensures
        q.url@ == host + "/v1/audio/transcriptions"@,
        q.key_header.0@ == "Authorization"@,
        q.key_header.1@ == "Bearer "@ + key,
        q.fields@.len() == 2,
        q.fields@[0].0@ == "model"@ && q.fields@[0].1@ == "whisper-1"@,
        q.fields@[1].0@ == "response_format"@ && q.fields@[1].1@ == "json"@,
{
    let v = audio::field_views(q.fields@);
    assert(v.len() == q.fields@.len());
    assert(v[0] == (q.fields@[0].0@, q.fields@[0].1@));
    assert(v[1] == (q.fields@[1].0@, q.fields@[1].1@));
}

/// The key of ElevenLabs is the secret one, or else the one among the other settings,
/// and only the latter has to be moved.
pub proof fn law_key_of_elevenlabs(secret: Option<String>, plain: Setting)
    ensures
        secret matches Some(key) ==> audio::elevenlabs_key_of(secret, plain) == Some(
            (key@, false),
        ),
        secret is None ==> {
            &&& plain matches Setting::Text(key) ==> audio::elevenlabs_key_of(secret, plain)
                == Some((key@, true))
            &&& !(plain is Text) ==> audio::elevenlabs_key_of(secret, plain) is None
        },
{
}

/// A request to ElevenLabs goes there with the key, and asks for a model and for neither
/// events nor speakers.
pub proof fn law_requests_to_elevenlabs(q: TranscriptionRequest, key: Seq<char>)
    requires
        audio::is_elevenlabs_request(q, key),
    ensures
        q.url@ == "https://api.elevenlabs.io/v1/speech-to-text"@,
        q.key_header.0@ == "xi-api-key"@,
        q.key_header.1@ == key,
        q.fields@.len() == 3,
        q.fields@[0].0@ == "model_id"@ && q.fields@[0].1@ == "scribe_v1"@,
        q.fields@[1].0@ == "tag_audio_events"@ && q.fields@[1].1@ == "false"@,
        q.fields@[2].0@ == "diarize"@ && q.fields@[2].1@ == "false"@,
{
    let v = audio::field_views(q.fields@);
    assert(v.len() == q.fields@.len());
    assert(v[0] == (q.fields@[0].0@, q.fields@[0].1@));
    assert(v[1] == (q.fields@[1].0@, q.fields@[1].1@));
    assert(v[2] == (q.fields@[2].0@, q.fields@[2].1@));
}

// Answers.

/// A transcript is what was transcribed, as it is; there is none without one. Whatever
/// else came of a request is an error of its own.
pub proof fn law_what_comes_of_a_request(
    o: SendOutcome,
    refused: spec_fn(u16, Seq<char>) -> Refusal,
)
    ensures
        audio::sent(o, refused) is Ok <==> o is Transcribed,
        o matches SendOutcome::Transcribed { text } ==> audio::sent(o, refused) == Ok::<
            Seq<char>,
            Refusal,
        >(text@),
        o is TimedOut ==> audio::sent(o, refused) == Err::<Seq<char>, Refusal>(
            Refusal::GatewayTimeout,
        ),
        o is NotSent ==> audio::sent(o, refused) == Err::<Seq<char>, Refusal>(
            Refusal::ServiceUnavailable,
        ),
        o is NoForm || o is NoClient || o is Unreadable ==> audio::sent(o, refused) == Err::<
            Seq<char>,
            Refusal,
        >(Refusal::InternalServerError),
        o matches SendOutcome::Failed { status, error } ==> audio::sent(o, refused) == Err::<
            Seq<char>,
            Refusal,
        >(refused(status, error@)),
{
}

/// A result of a transcription is seen as it is.
pub proof fn law_results_are_seen_as_they_are(r: Result<String, Refusal>)
    ensures
        r matches Ok(t) ==> audio::transcript_view(r) == Ok::<Seq<char>, Refusal>(t@),
        r matches Err(why) ==> audio::transcript_view(r) == Err::<Seq<char>, Refusal>(why),
{
}

/// OpenAI's word that the key is wrong or that there are too many requests is passed on;
/// every other of its errors is one of a gateway.
pub proof fn law_errors_of_openai(status: u16)
    ensures
        audio::openai_refusal(status) == Refusal::Unauthorized <==> status == 401,
        audio::openai_refusal(status) == Refusal::TooManyRequests <==> status == 429,
        audio::openai_refusal(status) == Refusal::BadGateway <==> status != 401 && status != 429,
{
}

/// ElevenLabs' word that the key is wrong comes before its word on what the account may
/// use; every other of its errors is one of a gateway.
pub proof fn law_errors_of_elevenlabs(error: Seq<char>)
    ensures
        ({
            let key = text::holds_text(error, "Unauthorized"@) || text::holds_text(
                error,
                "Invalid API key"@,
            );
            let account = text::holds_text(error, "quota"@) || text::holds_text(error, "limit"@);
            &&& audio::elevenlabs_refusal(error) == Refusal::Unauthorized <==> key
            &&& audio::elevenlabs_refusal(error) == Refusal::PaymentRequired <==> account && !key
            &&& audio::elevenlabs_refusal(error) == Refusal::BadGateway <==> !account && !key
        }),
{
}

// Handlers.

/// A recording is turned into a request to OpenAI if and only if it is accepted and there
/// is a key; the recording is looked at first.
pub proof fn law_openai_handler(
    audio: &str,
    mime_type: &str,
    api_key: Option<String>,
    host: Setting,
    r: Result<TranscriptionRequest, Refusal>,
)
    requires
        call_ensures(audio::transcribe_handler, (audio, mime_type, api_key, host), r),
    ensures
        ({
            let refusal = audio::audio_refusal(audio@, mime_type@);
            &&& r is Ok <==> refusal is None && api_key is Some
            &&& refusal is Some ==> r->Err_0 == refusal->0
            &&& refusal is None && api_key is None ==> r->Err_0 == Refusal::PreconditionFailed
            &&& r is Ok ==> {
                &&& base64_text::bytes_of(audio@) == Some(r->Ok_0.audio@)
                &&& r->Ok_0.mime_type@ == mime_type@
                &&& r->Ok_0.url@ == audio::openai_host_of(host) + "/v1/audio/transcriptions"@
                &&& r->Ok_0.key_header.1@ == "Bearer "@ + api_key->0@
            }
        }),
{
}

/// A recording is turned into a request to ElevenLabs if and only if it is accepted and
/// there is a key, secret or not; the recording is looked at first. Only a key that is
/// not secret yet is to be moved.
pub proof fn law_elevenlabs_handler(
    audio: &str,
    mime_type: &str,
    secret: Option<String>,
    plain: Setting,
    r: Result<(TranscriptionRequest, bool), Refusal>,
)
    requires
        call_ensures(
            audio::transcribe_elevenlabs_handler,
            (audio, mime_type, secret, plain),
            r,
        ),
    ensures
        ({
            let refusal = audio::audio_refusal(audio@, mime_type@);
            &&& r is Ok <==> refusal is None && (secret is Some || plain is Text)
            &&& refusal is Some ==> r->Err_0 == refusal->0
            &&& refusal is None && r is Err ==> r->Err_0 == Refusal::PreconditionFailed
            &&& r matches Ok((q, migrate)) ==> {
                &&& base64_text::bytes_of(audio@) == Some(q.audio@)
                &&& q.mime_type@ == mime_type@
                &&& q.url@ == "https://api.elevenlabs.io/v1/speech-to-text"@
                &&& migrate <==> secret is None
                &&& secret is Some ==> q.key_header.1@ == secret->0@
                &&& secret is None ==> q.key_header.1@ == plain->Text_0@
            }
        }),
{
}

/// Of a recognition on this machine the text is passed on. Without the runtime or the
/// model the service is not there; everything else is an error within.
pub proof fn law_local_recognition(o: LocalOutcome, r: Result<String, Refusal>)
    requires
        call_ensures(audio::local_outcome, (o,), r),
    ensures
        r is Ok <==> o is Transcribed,
        o is Transcribed ==> r->Ok_0 == o->text,
        o is NoRuntime || o is NoModel ==> r->Err_0 == Refusal::ServiceUnavailable,
        o is Poisoned || o is NotTranscribed || o is Crashed ==> r->Err_0
            == Refusal::InternalServerError,
{
}

/// The ways to recognise speech are independent of each other; the one on this machine
/// takes the runtime and the model.
pub proof fn law_ways_to_recognise_speech(
    secret_key: bool,
    plain_key: bool,
    has_ort: bool,
    has_model: bool,
    r: DictationConfig,
)
    requires
        call_ensures(
            audio::check_dictation_config,
            (secret_key, plain_key, has_ort, has_model),
            r,
        ),
    ensures
        !r.elevenlabs <==> !secret_key && !plain_key,
        r.local <==> r.onnx_runtime_installed && r.model_installed,
        r.onnx_runtime_installed <==> has_ort,
        r.model_installed <==> has_model,
{
}

} // verus!
