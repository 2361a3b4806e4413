use goose::audio::{
    check_dictation_config, elevenlabs_outcome, get_openai_config, local_outcome, openai_outcome,
    transcribe_elevenlabs_handler, transcribe_handler, validate_audio_input, LocalOutcome, Refusal,
    SendOutcome, Setting, MAX_AUDIO_SIZE_BYTES,
};

fn host() -> Setting {
    Setting::Text("http://127.0.0.1:9".to_string())
}

#[test]
fn test_transcribe_endpoint_requires_auth() {
    let request = transcribe_handler("dGVzdA==", "audio/webm", Some("fake-key".into()), host())
        .ok()
        .unwrap();
    assert_eq!(request.url, "http://127.0.0.1:9/v1/audio/transcriptions");
    assert_eq!(request.key_header, ("Authorization", "Bearer fake-key".to_string()));
    let reply = SendOutcome::Failed { status: 401, error: String::new() };
    assert_eq!(openai_outcome(reply), Err(Refusal::Unauthorized));
    assert_eq!(Refusal::Unauthorized.code(), 401);
}

#[test]
fn test_transcribe_endpoint_validates_size() {
    let refused =
        transcribe_handler("dGVzdA==", "application/pdf", None, Setting::Missing).err().unwrap();
    assert!(refused == Refusal::UnsupportedMediaType || refused == Refusal::PreconditionFailed);
    assert_eq!(refused.code(), 415);
}

#[test]
fn test_transcribe_endpoint_validates_mime_type() {
    let refused =
        transcribe_handler("invalid-base64-!@#$%", "audio/webm", None, Setting::Missing).err().unwrap();
    assert!(refused == Refusal::BadRequest || refused == Refusal::PreconditionFailed);
    assert_eq!(refused.code(), 400);
}

#[test]
fn recordings_are_decoded() {
    let (bytes, extension) = validate_audio_input("dGVzdA==", "audio/webm").unwrap();
    assert_eq!(bytes, b"test");
    assert_eq!(extension, "webm");
    let (bytes, _) = validate_audio_input("AP+A", "audio/wav").unwrap();
    assert_eq!(bytes, vec![0x00, 0xff, 0x80]);
    let (bytes, _) = validate_audio_input("", "audio/wav").unwrap();
    assert!(bytes.is_empty());
}

#[test]
fn what_is_no_base64_is_refused() {
    for bad in ["dGVzdA", "dGVzdA=", "dGVzdB==", "dGVz dA==", "dGVzdA==\n", "=", "é"] {
        assert_eq!(validate_audio_input(bad, "audio/webm"), Err(Refusal::BadRequest));
    }
}

#[test]
fn types_have_their_extensions() {
    let extension = |mime: &str| validate_audio_input("", mime).map(|r| r.1);
    assert_eq!(extension("audio/webm;codecs=opus"), Ok("webm"));
    assert_eq!(extension("audio/mp4"), Ok("mp4"));
    assert_eq!(extension("audio/mpeg"), Ok("mp3"));
    assert_eq!(extension("audio/mpga"), Ok("mpga"));
    assert_eq!(extension("audio/m4a"), Ok("m4a"));
    assert_eq!(extension("audio/wav"), Ok("wav"));
    assert_eq!(extension("audio/x-wav"), Ok("wav"));
    assert_eq!(extension("Audio/Wav"), Err(Refusal::UnsupportedMediaType));
}

#[test]
fn the_size_is_checked_before_the_type() {
    // Four characters stand for three zero bytes.
    let groups = MAX_AUDIO_SIZE_BYTES / 3;
    let just_fits = "AAAA".repeat(groups) + "AA==";
    assert_eq!(groups * 3 + 1, MAX_AUDIO_SIZE_BYTES);
    let (bytes, _) = validate_audio_input(&just_fits, "audio/wav").unwrap();
    assert_eq!(bytes.len(), MAX_AUDIO_SIZE_BYTES);
    let too_large = "AAAA".repeat(groups) + "AAA=";
    assert_eq!(validate_audio_input(&too_large, "text/plain"), Err(Refusal::PayloadTooLarge));
    assert_eq!(Refusal::PayloadTooLarge.code(), 413);
}

#[test]
fn openai_needs_a_key() {
    assert_eq!(
        transcribe_handler("dGVzdA==", "audio/webm", None, host()).err().unwrap(),
        Refusal::PreconditionFailed
    );
    assert_eq!(Refusal::PreconditionFailed.code(), 412);
    let (key, host) = get_openai_config(Some("k".into()), Setting::NotText).unwrap();
    assert_eq!(key, "k");
    assert_eq!(host, "https://api.openai.com");
    assert_eq!(
        get_openai_config(Some("k".into()), Setting::Missing).unwrap().1,
        "https://api.openai.com"
    );
}

#[test]
fn the_form_for_openai_is_complete() {
    let q = transcribe_handler("dGVzdA==", "audio/mpeg", Some("k".into()), Setting::Missing).ok().unwrap();
    assert_eq!(q.url, "https://api.openai.com/v1/audio/transcriptions");
    assert_eq!(q.file_name, "audio.mp3");
    assert_eq!(q.mime_type, "audio/mpeg");
    assert_eq!(q.audio, b"test");
    assert_eq!(q.fields, vec![("model", "whisper-1"), ("response_format", "json")]);
    assert_eq!(q.timeout_seconds, 30);
}

#[test]
fn answers_of_openai_are_mapped() {
    let failed = |status: u16| SendOutcome::Failed { status, error: "quota".into() };
    assert_eq!(openai_outcome(failed(429)), Err(Refusal::TooManyRequests));
    assert_eq!(openai_outcome(failed(500)), Err(Refusal::BadGateway));
    assert_eq!(openai_outcome(SendOutcome::NoForm), Err(Refusal::InternalServerError));
    assert_eq!(openai_outcome(SendOutcome::NoClient), Err(Refusal::InternalServerError));
    assert_eq!(openai_outcome(SendOutcome::TimedOut), Err(Refusal::GatewayTimeout));
    assert_eq!(openai_outcome(SendOutcome::NotSent), Err(Refusal::ServiceUnavailable));
    assert_eq!(openai_outcome(SendOutcome::Unreadable), Err(Refusal::InternalServerError));
    assert_eq!(openai_outcome(SendOutcome::Transcribed { text: "hi".into() }), Ok("hi".into()));
    assert_eq!(Refusal::TooManyRequests.code(), 429);
    assert_eq!(Refusal::BadGateway.code(), 502);
    assert_eq!(Refusal::ServiceUnavailable.code(), 503);
    assert_eq!(Refusal::GatewayTimeout.code(), 504);
    assert_eq!(Refusal::InternalServerError.code(), 500);
}

#[test]
fn the_key_of_elevenlabs_is_moved_to_the_secrets() {
    let ask = |secret: Option<&str>, plain: Setting| {
        transcribe_elevenlabs_handler("dGVzdA==", "audio/wav", secret.map(|s| s.to_string()), plain)
    };
    let (q, migrate) = ask(Some("s"), Setting::Text("p".into())).ok().unwrap();
    assert_eq!(q.key_header, ("xi-api-key", "s".to_string()));
    assert!(!migrate);
    let (q, migrate) = ask(None, Setting::Text("p".into())).ok().unwrap();
    assert_eq!(q.key_header.1, "p");
    assert!(migrate);
    assert_eq!(q.url, "https://api.elevenlabs.io/v1/speech-to-text");
    assert_eq!(
        q.fields,
        vec![("model_id", "scribe_v1"), ("tag_audio_events", "false"), ("diarize", "false")]
    );
    assert_eq!(ask(None, Setting::NotText).err(), Some(Refusal::PreconditionFailed));
    assert_eq!(ask(None, Setting::Missing).err(), Some(Refusal::PreconditionFailed));
    assert_eq!(
        transcribe_elevenlabs_handler("!", "audio/wav", None, Setting::Missing).err(),
        Some(Refusal::BadRequest)
    );
}

#[test]
fn answers_of_elevenlabs_are_mapped_by_their_text() {
    let failed = |error: &str| elevenlabs_outcome(SendOutcome::Failed { status: 401, error: error.into() });
    assert_eq!(failed("{\"detail\":\"Unauthorized\"}"), Err(Refusal::Unauthorized));
    assert_eq!(failed("Invalid API key"), Err(Refusal::Unauthorized));
    assert_eq!(failed("quota exceeded"), Err(Refusal::PaymentRequired));
    assert_eq!(failed("rate limit"), Err(Refusal::PaymentRequired));
    assert_eq!(failed("oops"), Err(Refusal::BadGateway));
    assert_eq!(Refusal::PaymentRequired.code(), 402);
    assert_eq!(elevenlabs_outcome(SendOutcome::TimedOut), Err(Refusal::GatewayTimeout));
    assert_eq!(elevenlabs_outcome(SendOutcome::NotSent), Err(Refusal::ServiceUnavailable));
    assert_eq!(elevenlabs_outcome(SendOutcome::NoForm), Err(Refusal::InternalServerError));
    assert_eq!(elevenlabs_outcome(SendOutcome::NoClient), Err(Refusal::InternalServerError));
    assert_eq!(elevenlabs_outcome(SendOutcome::Unreadable), Err(Refusal::InternalServerError));
    assert_eq!(elevenlabs_outcome(SendOutcome::Transcribed { text: "x".into() }), Ok("x".into()));
}

#[test]
fn local_failures_are_mapped() {
    assert_eq!(local_outcome(LocalOutcome::NoRuntime), Err(Refusal::ServiceUnavailable));
    assert_eq!(local_outcome(LocalOutcome::NoModel), Err(Refusal::ServiceUnavailable));
    assert_eq!(local_outcome(LocalOutcome::Poisoned), Err(Refusal::InternalServerError));
    assert_eq!(local_outcome(LocalOutcome::NotTranscribed), Err(Refusal::InternalServerError));
    assert_eq!(local_outcome(LocalOutcome::Crashed), Err(Refusal::InternalServerError));
    assert_eq!(local_outcome(LocalOutcome::Transcribed { text: "x".into() }), Ok("x".into()));
}

#[test]
fn local_dictation_takes_runtime_and_model() {
    let c = check_dictation_config(false, true, true, false);
    assert!(c.elevenlabs && !c.local && c.onnx_runtime_installed && !c.model_installed);
    let c = check_dictation_config(false, false, true, true);
    assert!(!c.elevenlabs && c.local);
}
