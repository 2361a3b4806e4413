use goose::stt::decode::{
    choose_track, decoder_error, format_hint, frames, probe_error, PacketAction, PacketDecode,
    PacketRead, SampleCollector, Track,
};
use goose::stt::local::{
    configured_dir, delete_model, delete_ort, entry_action, EntryAction, get_model_status, get_ort_download_url,
    get_ort_lib_filename, get_ort_status, init_ort, is_ort_installed, is_versioned_lib, model_files,
    ort_loaded, DeleteReport, FileProbe, InitAction, Removal, TargetArch, TargetOs,
};
use goose::stt::transcriber::{
    check_sample_rate, chunk_count, chunk_error, model_error, padded_chunk, CHUNK_SAMPLES,
};
use goose::stt::Error;

fn track(id: u32, has_codec: bool, sample_rate: Option<u32>, channels: Option<u16>) -> Track {
    Track { id, has_codec, sample_rate, channels }
}

#[test]
fn errors_say_what_failed() {
    assert_eq!(Error::ModelLoad("x".into()).message(), "Failed to load model: x");
    assert_eq!(Error::AudioDecode("x".into()).message(), "Failed to decode audio: x");
    assert_eq!(Error::Transcribe("x".into()).message(), "Failed to transcribe: x");
    assert_eq!(Error::UnsupportedFormat("x".into()).message(), "Unsupported audio format: x");
    assert_eq!(Error::Io("x".into()).message(), "IO error: x");
    assert_eq!(probe_error("x").message(), "Failed to decode audio: Failed to probe format: x");
    assert_eq!(decoder_error("x").message(), "Failed to decode audio: Failed to create decoder: x");
    assert_eq!(model_error("x").message(), "Failed to load model: x");
    assert_eq!(chunk_error("x").message(), "Failed to transcribe: x");
}

#[test]
fn two_formats_are_read() {
    assert_eq!(format_hint("audio/webm").ok(), Some("webm"));
    assert_eq!(format_hint("audio/wav").ok(), Some("wav"));
    assert_eq!(format_hint("audio/wave").ok(), Some("wav"));
    assert_eq!(
        format_hint("audio/mp4").err().unwrap().message(),
        "Unsupported audio format: audio/mp4. Only audio/wav and audio/webm are supported."
    );
}

#[test]
fn the_first_track_with_samples_is_read() {
    let tracks = vec![
        track(1, false, Some(8000), None),
        track(2, true, Some(16000), Some(2)),
        track(3, true, Some(44100), None),
    ];
    let c = choose_track(&tracks).unwrap();
    assert_eq!((c.index, c.id, c.sample_rate, c.channels), (1, 2, 16000, 2));
    let c = choose_track(&vec![track(9, true, Some(16000), None)]).unwrap();
    assert_eq!(c.channels, 1);
    assert_eq!(
        choose_track(&vec![]).unwrap_err().message(),
        "Failed to decode audio: No audio track found"
    );
    assert_eq!(
        choose_track(&vec![track(1, true, None, None)]).unwrap_err().message(),
        "Failed to decode audio: Unknown sample rate"
    );
}

#[test]
fn samples_of_one_track_are_collected() {
    let mut c: SampleCollector<i16> = SampleCollector::new(2);
    assert!(matches!(c.on_packet(PacketRead::Packet { track_id: 1 }), PacketAction::Read));
    assert!(matches!(c.on_packet(PacketRead::Packet { track_id: 2 }), PacketAction::Decode));
    assert!(matches!(c.on_decoded(PacketDecode::Samples(vec![1, 2])), PacketAction::Read));
    assert!(matches!(c.on_decoded(PacketDecode::Malformed), PacketAction::Read));
    assert!(matches!(c.on_decoded(PacketDecode::Samples(vec![3])), PacketAction::Read));
    assert!(matches!(c.on_packet(PacketRead::End), PacketAction::Stop));
    match c.on_packet(PacketRead::Failed("x".into())) {
        PacketAction::Fail(e) => {
            assert_eq!(e.message(), "Failed to decode audio: Failed to read packet: x")
        }
        _ => panic!("the error is given up"),
    }
    match c.on_decoded(PacketDecode::Failed("x".into())) {
        PacketAction::Fail(e) => {
            assert_eq!(e.message(), "Failed to decode audio: Failed to decode packet: x")
        }
        _ => panic!("the error is given up"),
    }
    let chosen = choose_track(&vec![track(2, true, Some(16000), Some(1))]).unwrap();
    let audio = c.finish(chosen);
    assert_eq!(audio.samples, vec![1, 2, 3]);
    assert_eq!(audio.sample_rate, 16000);
    assert_eq!(audio.channels, 1);
}

#[test]
fn samples_are_split_into_frames() {
    assert_eq!(frames(&vec![1, 2, 3, 4, 5], 2), vec![vec![1, 2], vec![3, 4], vec![5]]);
    assert_eq!(frames(&vec![1.5f32, 2.5], 1), vec![vec![1.5f32], vec![2.5]]);
    assert!(frames(&Vec::<u8>::new(), 3).is_empty());
}

#[test]
fn the_rate_may_be_a_little_off() {
    assert!(check_sample_rate(16000).is_ok());
    assert!(check_sample_rate(15900).is_ok());
    assert!(check_sample_rate(16100).is_ok());
    assert!(check_sample_rate(16101).is_err());
    assert_eq!(
        check_sample_rate(15899).unwrap_err().message(),
        "Failed to decode audio: Audio must be 16kHz, got 15899Hz. Please resample client-side."
    );
}

#[test]
fn chunks_are_filled_up() {
    assert_eq!(chunk_count(0), 0);
    assert_eq!(chunk_count(1), 1);
    assert_eq!(chunk_count(CHUNK_SAMPLES), 1);
    assert_eq!(chunk_count(CHUNK_SAMPLES + 1), 2);
    let samples: Vec<i32> = (1..=(CHUNK_SAMPLES as i32 + 2)).collect();
    let first = padded_chunk(&samples, 0, 0);
    assert_eq!(first, samples[..CHUNK_SAMPLES]);
    let second = padded_chunk(&samples, 1, 0);
    assert_eq!(second.len(), CHUNK_SAMPLES);
    assert_eq!(second[..3], [CHUNK_SAMPLES as i32 + 1, CHUNK_SAMPLES as i32 + 2, 0]);
    assert!(second[2..].iter().all(|s| *s == 0));
}

#[test]
fn the_library_has_its_name() {
    assert_eq!(get_ort_lib_filename(TargetOs::MacOs), "libonnxruntime.dylib");
    assert_eq!(get_ort_lib_filename(TargetOs::Linux), "libonnxruntime.so");
    assert_eq!(get_ort_lib_filename(TargetOs::Windows), "onnxruntime.dll");
    let url = |os, arch| get_ort_download_url(os, arch).unwrap_or("none");
    assert!(url(TargetOs::MacOs, TargetArch::Aarch64).ends_with("onnxruntime-osx-arm64-1.23.2.tgz"));
    assert!(url(TargetOs::MacOs, TargetArch::X86_64).ends_with("onnxruntime-osx-x86_64-1.23.2.tgz"));
    assert!(url(TargetOs::Linux, TargetArch::X86_64).ends_with("onnxruntime-linux-x64-1.23.2.tgz"));
    assert!(url(TargetOs::Linux, TargetArch::Aarch64).ends_with("onnxruntime-linux-aarch64-1.23.2.tgz"));
    assert!(url(TargetOs::Windows, TargetArch::Other).ends_with("onnxruntime-win-x64-1.23.2.zip"));
    assert_eq!(url(TargetOs::Linux, TargetArch::Other), "none");
    assert_eq!(url(TargetOs::MacOs, TargetArch::Other), "none");
    assert_eq!(configured_dir(Some("/a".into()), "/b".into()), "/a");
    assert_eq!(configured_dir(None, "/b".into()), "/b");
}

#[test]
fn the_runtime_is_looked_for() {
    let files = vec!["libonnxruntime.so".to_string(), "README".to_string()];
    assert!(is_ort_installed(&files, TargetOs::Linux));
    assert!(!is_ort_installed(&files, TargetOs::Windows));
    assert!(matches!(init_ort(true, false, "/x"), InitAction::Ready));
    assert!(matches!(init_ort(false, true, "/x"), InitAction::Load));
    match init_ort(false, false, "/x") {
        InitAction::Fail(why) => assert_eq!(
            why,
            "ONNX Runtime library not found at /x. Please download it first."
        ),
        _ => panic!("there is nothing to load"),
    }
    assert!(ort_loaded(Ok(())).is_ok());
    assert_eq!(ort_loaded(Err("bad".into())).unwrap_err(), "Failed to load ONNX Runtime: bad");
}

#[test]
fn the_runtime_is_reported() {
    let linux = TargetOs::Linux;
    let there = vec!["README".to_string(), "libonnxruntime.so".to_string()];
    let other = vec!["libonnxruntime.dylib".to_string()];
    let s = get_ort_status(&there, "/x".into(), Some(7), linux, TargetArch::X86_64);
    assert!(s.installed && s.platform_supported);
    assert_eq!((s.version, s.size, s.path.as_str()), ("1.23.2", 7, "/x"));
    let s = get_ort_status(&other, "/x".into(), Some(7), linux, TargetArch::Other);
    assert!(!s.installed && !s.platform_supported);
    assert_eq!(s.size, 0);
    assert_eq!(get_ort_status(&there, "".into(), None, linux, TargetArch::Other).size, 0);

    assert!(matches!(
        delete_ort(&other, linux, "/d".into(), Ok(())),
        DeleteReport::NotInstalled { message: "ONNX Runtime was not installed" }
    ));
    assert!(matches!(&delete_ort(&there, linux, "/d".into(), Ok(())),
        DeleteReport::Deleted { dir } if dir == "/d"));
    assert!(matches!(&delete_ort(&there, linux, "/d".into(), Err("busy".into())),
        DeleteReport::Failed { error } if error == "Failed to delete: busy"));
}

#[test]
fn a_removed_runtime_is_reported_as_gone() {
    let linux = TargetOs::Linux;
    let files = vec!["libonnxruntime.so".to_string()];
    assert!(is_ort_installed(&files, linux));
    assert!(get_ort_status(&files, "/d/x".into(), Some(7), linux, TargetArch::X86_64).installed);
    assert!(matches!(delete_ort(&files, linux, "/d".into(), Ok(())), DeleteReport::Deleted { .. }));
    let files: Vec<String> = Vec::new();
    assert!(!is_ort_installed(&files, linux));
    let s = get_ort_status(&files, "/d/x".into(), None, linux, TargetArch::X86_64);
    assert!(!s.installed);
    assert_eq!(s.size, 0);
    assert!(matches!(
        delete_ort(&files, linux, "/d".into(), Ok(())),
        DeleteReport::NotInstalled { .. }
    ));
}

#[test]
fn the_library_is_found_in_its_archive() {
    let mac = TargetOs::MacOs;
    assert!(is_versioned_lib("onnx/lib/libonnxruntime.1.23.2.dylib", true, mac));
    assert!(!is_versioned_lib("onnx/lib/libonnxruntime.1.23.2.dylib", false, mac));
    assert!(!is_versioned_lib("onnx/lib/libonnxruntime.dylib", true, mac));
    assert!(!is_versioned_lib("onnx/lib/libonnxruntime.1.dylib", true, mac));
    assert!(!is_versioned_lib("onnx/lib/libonnxruntime.1.23.2.dylib.dSYM/x.dylib", true, mac));
    assert!(!is_versioned_lib(
        "lib/libonnxruntime.1.23.2.dylib.dSYM/Contents/Resources/DWARF/libonnxruntime.1.23.2.dylib",
        true,
        mac
    ));
    assert!(!is_versioned_lib("onnx/lib/other.dylib", true, mac));
    let linux = TargetOs::Linux;
    assert!(is_versioned_lib("onnx/lib/libonnxruntime.so.1.23.2", true, linux));
    assert!(is_versioned_lib("lib/libonnxruntime.so.1.23.2", true, linux));
    assert!(is_versioned_lib("libonnxruntime.so.0.0.10", true, linux));
    assert!(!is_versioned_lib("lib/libonnxruntime.so.1.23.2", false, linux));
    assert!(!is_versioned_lib("lib/libonnxruntime.so.1", true, linux));
    assert!(!is_versioned_lib("lib/libonnxruntime.so.1", false, linux));
    assert!(!is_versioned_lib("lib/libonnxruntime.so.1.23", true, linux));
    assert!(!is_versioned_lib("lib/libonnxruntime.so.1.23.2.sig", true, linux));
    assert!(!is_versioned_lib("lib/libonnxruntime.so.1..2", true, linux));
    assert!(!is_versioned_lib("lib/libonnxruntime.so.1.2.3.4", true, linux));
    assert!(!is_versioned_lib("onnx/lib/libonnxruntime.so", true, linux));
    assert!(!is_versioned_lib("", true, linux));
    let windows = TargetOs::Windows;
    assert!(is_versioned_lib("onnx/lib/onnxruntime.dll", true, windows));
    assert!(!is_versioned_lib("onnx/lib/onnxruntime.lib", true, windows));
}

#[test]
fn the_search_ends_at_the_library() {
    let linux = TargetOs::Linux;
    assert_eq!(entry_action("lib/README", true, linux), EntryAction::PassOver);
    assert_eq!(entry_action("lib/libonnxruntime.so", false, linux), EntryAction::PassOver);
    assert_eq!(entry_action("lib/libonnxruntime.so.1.23.2", true, linux), EntryAction::TakeAndStop);
}

#[test]
fn the_model_is_reported() {
    let here = |n: u64| FileProbe { present: true, size: Some(n) };
    let gone = FileProbe { present: false, size: None };
    let unread = FileProbe { present: true, size: None };
    let s = get_model_status("/m".into(), &vec![here(1), here(2), here(3), here(4)]);
    assert!(s.installed);
    assert_eq!(s.total_size, 10);
    assert_eq!(s.files.len(), 4);
    assert_eq!(s.path, "/m");
    let s = get_model_status("/m".into(), &vec![here(1), gone, unread, here(4)]);
    assert!(!s.installed);
    assert_eq!(s.total_size, 5);
    // A file that is there and cannot be measured is not listed.
    assert_eq!(s.files.len(), 3);
    assert_eq!((s.files[1].name, s.files[1].present, s.files[1].size), ("encoder.onnx.data", false, 0));
    let s = get_model_status("/m".into(), &vec![unread, unread, unread, unread]);
    assert!(s.installed && s.files.is_empty());
}

#[test]
fn the_removal_of_the_model_is_reported() {
    let r = delete_model(&vec![
        Removal::Removed,
        Removal::Absent,
        Removal::Failed("busy".into()),
        Removal::Removed,
    ]);
    assert!(!r.success);
    assert_eq!(r.deleted, vec!["encoder.onnx", "tokenizer.model"]);
    assert_eq!(r.errors, vec!["decoder_joint.onnx: busy"]);
    let r = delete_model(&vec![Removal::Absent, Removal::Absent, Removal::Absent, Removal::Absent]);
    assert!(r.success && r.deleted.is_empty() && r.errors.is_empty());
    assert_eq!(model_files().len(), 4);
    assert!(model_files()[0].url.ends_with("/encoder.onnx"));
}
