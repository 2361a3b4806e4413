use goose::stt::download::{
    extraction_result, Extraction, ModelDownload, OrtDownload, Piece, ProgressStatus, Report, Response, Stage, Step,
    StepAction, StepEvent,
};

const URL: &str = "https://example.org/runtime.tgz";

fn error(step: &Step) -> &str {
    match step.reports.last() {
        Some(Report::Error(t)) => t,
        _ => panic!("an error is reported"),
    }
}

fn ort_at_file() -> OrtDownload {
    let (mut d, _) = OrtDownload::begin(Some(URL));
    d.download_ort(StepEvent::DirectoryCreated(Ok(())));
    d.download_ort(StepEvent::ClientBuilt(Ok(())));
    d.download_ort(StepEvent::Responded(Response::Accepted { length: Some(300) }));
    d
}

#[test]
fn a_machine_without_a_runtime_gets_none() {
    let (d, step) = OrtDownload::begin(None);
    assert_eq!(error(&step), "ONNX Runtime download not supported for this platform");
    assert!(matches!(step.action, StepAction::Stop));
    assert_eq!(d.stage, Stage::Over);
}

#[test]
fn a_runtime_is_downloaded_and_extracted() {
    let (mut d, step) = OrtDownload::begin(Some(URL));
    assert!(matches!(step.action, StepAction::CreateDirectory));
    assert!(step.reports.is_empty());
    let step = d.download_ort(StepEvent::DirectoryCreated(Ok(())));
    assert!(matches!(step.reports[0], Report::Status("Downloading ONNX Runtime...")));
    assert!(matches!(step.action, StepAction::BuildClient));
    let step = d.download_ort(StepEvent::ClientBuilt(Ok(())));
    assert!(matches!(step.action, StepAction::Request { url: URL }));
    let step = d.download_ort(StepEvent::Responded(Response::Accepted { length: Some(300) }));
    assert!(matches!(step.action, StepAction::CreateFile { name: "onnxruntime_download.tmp" }));
    let step = d.download_ort(StepEvent::FileCreated { result: Ok(()), now: 0 });
    assert!(matches!(step.action, StepAction::ReadPiece));

    // Too early for a report.
    d.download_ort(StepEvent::PieceRead(Piece::Data { length: 100 }));
    let step = d.download_ort(StepEvent::PieceWritten { result: Ok(()), now: 99_999_999 });
    assert!(step.reports.is_empty());
    // Now one is due.
    d.download_ort(StepEvent::PieceRead(Piece::Data { length: 50 }));
    let step = d.download_ort(StepEvent::PieceWritten { result: Ok(()), now: 100_000_000 });
    match &step.reports[0] {
        Report::Progress(p) => {
            assert!(p.file.is_none());
            assert_eq!(p.status, ProgressStatus::Downloading);
            assert_eq!(p.bytes_downloaded, 150);
            assert_eq!(p.total_bytes, 300);
        }
        _ => panic!("progress is reported"),
    }
    // The interval starts again.
    d.download_ort(StepEvent::PieceRead(Piece::Data { length: 150 }));
    let step = d.download_ort(StepEvent::PieceWritten { result: Ok(()), now: 150_000_000 });
    assert!(step.reports.is_empty());

    let step = d.download_ort(StepEvent::PieceRead(Piece::End));
    assert!(matches!(step.action, StepAction::Flush));
    let step = d.download_ort(StepEvent::Flushed(Ok(())));
    assert!(matches!(step.reports[0], Report::Status("Extracting ONNX Runtime...")));
    assert!(matches!(step.action, StepAction::Extract));
    let step = d.download_ort(StepEvent::Extracted(Extraction::Done));
    assert!(matches!(step.reports[0], Report::Complete("ONNX Runtime installed successfully")));
    assert!(matches!(step.action, StepAction::Stop));
    assert_eq!(d.stage, Stage::Over);
}

#[test]
fn every_failure_of_the_runtime_has_its_word() {
    let (mut d, _) = OrtDownload::begin(Some(URL));
    let step = d.download_ort(StepEvent::DirectoryCreated(Err("x".into())));
    assert_eq!(error(&step), "Failed to create directory: x");

    let (mut d, _) = OrtDownload::begin(Some(URL));
    d.download_ort(StepEvent::DirectoryCreated(Ok(())));
    let step = d.download_ort(StepEvent::ClientBuilt(Err("x".into())));
    assert_eq!(error(&step), "Failed to create HTTP client: x");

    let (mut d, _) = OrtDownload::begin(Some(URL));
    d.download_ort(StepEvent::DirectoryCreated(Ok(())));
    d.download_ort(StepEvent::ClientBuilt(Ok(())));
    let step = d.download_ort(StepEvent::Responded(Response::Failed("x".into())));
    assert_eq!(error(&step), "Failed to download: x");

    let (mut d, _) = OrtDownload::begin(Some(URL));
    d.download_ort(StepEvent::DirectoryCreated(Ok(())));
    d.download_ort(StepEvent::ClientBuilt(Ok(())));
    let refused = Response::Refused { status: "404 Not Found".into() };
    let step = d.download_ort(StepEvent::Responded(refused));
    assert_eq!(error(&step), "Download failed: HTTP 404 Not Found");

    let mut d = ort_at_file();
    let step = d.download_ort(StepEvent::FileCreated { result: Err("x".into()), now: 0 });
    assert_eq!(error(&step), "Failed to create temp file: x");

    let mut d = ort_at_file();
    d.download_ort(StepEvent::FileCreated { result: Ok(()), now: 0 });
    let step = d.download_ort(StepEvent::PieceRead(Piece::Failed("x".into())));
    assert_eq!(error(&step), "Download error: x");

    let mut d = ort_at_file();
    d.download_ort(StepEvent::FileCreated { result: Ok(()), now: 0 });
    d.download_ort(StepEvent::PieceRead(Piece::Data { length: 1 }));
    let step = d.download_ort(StepEvent::PieceWritten { result: Err("x".into()), now: 0 });
    assert_eq!(error(&step), "Failed to write: x");

    let mut d = ort_at_file();
    d.download_ort(StepEvent::FileCreated { result: Ok(()), now: 0 });
    d.download_ort(StepEvent::PieceRead(Piece::End));
    let step = d.download_ort(StepEvent::Flushed(Err("x".into())));
    assert_eq!(error(&step), "Failed to flush: x");

    for (outcome, said) in [
        (Extraction::Failed("x".into()), "Extraction failed: x"),
        (Extraction::Crashed("x".into()), "Task failed: x"),
    ] {
        let mut d = ort_at_file();
        d.download_ort(StepEvent::FileCreated { result: Ok(()), now: 0 });
        d.download_ort(StepEvent::PieceRead(Piece::End));
        d.download_ort(StepEvent::Flushed(Ok(())));
        let step = d.download_ort(StepEvent::Extracted(outcome));
        assert_eq!(error(&step), said);
        assert!(matches!(step.action, StepAction::Stop));
    }
}

#[test]
fn an_archive_without_the_library_is_an_error() {
    assert!(matches!(extraction_result(true), Extraction::Done));
    assert!(matches!(&extraction_result(false), Extraction::Failed(why)
        if why == "Library file not found in archive"));
}

#[test]
fn a_model_is_downloaded_file_by_file() {
    let names = ["encoder.onnx", "encoder.onnx.data", "decoder_joint.onnx", "tokenizer.model"];
    let (mut d, step) = ModelDownload::begin();
    assert!(matches!(step.action, StepAction::CreateDirectory));
    let step = d.download_model(StepEvent::DirectoryCreated(Ok(())));
    assert!(matches!(step.reports[0], Report::Status("Starting download...")));
    let mut step = d.download_model(StepEvent::ClientBuilt(Ok(())));
    for (i, name) in names.iter().enumerate() {
        match step.reports.last() {
            Some(Report::Progress(p)) => {
                let file = p.file.unwrap();
                assert_eq!((file.name, file.index, file.total), (*name, i, 4));
                assert_eq!(p.status, ProgressStatus::Starting);
                assert_eq!((p.bytes_downloaded, p.total_bytes), (0, 0));
            }
            _ => panic!("a file is announced"),
        }
        match step.action {
            StepAction::Request { url } => assert!(url.ends_with(name)),
            _ => panic!("a file is asked for"),
        }
        let s = d.download_model(StepEvent::Responded(Response::Accepted { length: None }));
        assert!(matches!(s.action, StepAction::CreateFile { name: n } if n == *name));
        d.download_model(StepEvent::FileCreated { result: Ok(()), now: 5 });
        d.download_model(StepEvent::PieceRead(Piece::Data { length: 8 }));
        d.download_model(StepEvent::PieceWritten { result: Ok(()), now: 6 });
        d.download_model(StepEvent::PieceRead(Piece::End));
        step = d.download_model(StepEvent::Flushed(Ok(())));
        assert_eq!(step.reports.len(), 2);
        match &step.reports[0] {
            Report::Progress(p) => {
                assert_eq!(p.status, ProgressStatus::Complete);
                assert_eq!((p.bytes_downloaded, p.total_bytes), (8, 0));
                assert_eq!(p.file.unwrap().index, i);
            }
            _ => panic!("a file is complete"),
        }
    }
    assert!(matches!(step.reports[1], Report::Complete("All model files downloaded successfully")));
    assert!(matches!(step.action, StepAction::Stop));
    assert_eq!(d.stage, Stage::Over);
}

#[test]
fn every_failure_of_the_model_names_its_file() {
    let at_response = || {
        let (mut d, _) = ModelDownload::begin();
        d.download_model(StepEvent::DirectoryCreated(Ok(())));
        d.download_model(StepEvent::ClientBuilt(Ok(())));
        d
    };
    let at_reading = || {
        let mut d = at_response();
        d.download_model(StepEvent::Responded(Response::Accepted { length: Some(9) }));
        d.download_model(StepEvent::FileCreated { result: Ok(()), now: 0 });
        d
    };
    let (mut d, _) = ModelDownload::begin();
    let step = d.download_model(StepEvent::DirectoryCreated(Err("x".into())));
    assert_eq!(error(&step), "Failed to create model directory: x");
    let (mut d, _) = ModelDownload::begin();
    d.download_model(StepEvent::DirectoryCreated(Ok(())));
    let step = d.download_model(StepEvent::ClientBuilt(Err("x".into())));
    assert_eq!(error(&step), "Failed to create HTTP client: x");
    let step = at_response().download_model(StepEvent::Responded(Response::Failed("x".into())));
    assert_eq!(error(&step), "Failed to download encoder.onnx: x");
    let refused = Response::Refused { status: "403 Forbidden".into() };
    let step = at_response().download_model(StepEvent::Responded(refused));
    assert_eq!(error(&step), "Failed to download encoder.onnx: HTTP 403 Forbidden");
    let mut d = at_response();
    d.download_model(StepEvent::Responded(Response::Accepted { length: None }));
    let step = d.download_model(StepEvent::FileCreated { result: Err("x".into()), now: 0 });
    assert_eq!(error(&step), "Failed to create file encoder.onnx: x");
    let step = at_reading().download_model(StepEvent::PieceRead(Piece::Failed("x".into())));
    assert_eq!(error(&step), "Download error for encoder.onnx: x");
    let mut d = at_reading();
    d.download_model(StepEvent::PieceRead(Piece::Data { length: 1 }));
    let step = d.download_model(StepEvent::PieceWritten { result: Err("x".into()), now: 0 });
    assert_eq!(error(&step), "Failed to write to encoder.onnx: x");
    let mut d = at_reading();
    d.download_model(StepEvent::PieceRead(Piece::End));
    let step = d.download_model(StepEvent::Flushed(Err("x".into())));
    assert_eq!(error(&step), "Failed to flush encoder.onnx: x");
    assert_eq!(d.stage, Stage::Over);
}

fn is_outcome(r: &Report) -> bool {
    matches!(r, Report::Error(_) | Report::Complete(_))
}

#[test]
fn a_whole_download_of_the_runtime_reports_one_outcome_as_its_last_word() {
    let events = |extraction: Extraction| {
        vec![
            StepEvent::DirectoryCreated(Ok(())),
            StepEvent::ClientBuilt(Ok(())),
            StepEvent::Responded(Response::Accepted { length: Some(4) }),
            StepEvent::FileCreated { result: Ok(()), now: 0 },
            StepEvent::PieceRead(Piece::Data { length: 4 }),
            StepEvent::PieceWritten { result: Ok(()), now: 200_000_000 },
            StepEvent::PieceRead(Piece::End),
            StepEvent::Flushed(Ok(())),
            StepEvent::Extracted(extraction),
        ]
    };
    for (extraction, success) in
        [(Extraction::Done, true), (Extraction::Failed("x".into()), false)]
    {
        let (mut d, step) = OrtDownload::begin(Some(URL));
        let mut reports = step.reports;
        for event in events(extraction) {
            assert_ne!(d.stage, Stage::Over);
            assert!(!reports.iter().any(is_outcome));
            reports.extend(d.download_ort(event).reports);
        }
        assert_eq!(d.stage, Stage::Over);
        assert_eq!(reports.iter().filter(|r| is_outcome(r)).count(), 1);
        assert_eq!(matches!(reports.last(), Some(Report::Complete(_))), success);
        assert_eq!(matches!(reports.last(), Some(Report::Error(_))), !success);
    }
}

#[test]
fn a_whole_download_of_the_model_is_complete_after_all_files() {
    let (mut d, step) = ModelDownload::begin();
    let mut reports = step.reports;
    reports.extend(d.download_model(StepEvent::DirectoryCreated(Ok(()))).reports);
    reports.extend(d.download_model(StepEvent::ClientBuilt(Ok(()))).reports);
    for _ in 0..4 {
        assert!(!reports.iter().any(is_outcome));
        for event in [
            StepEvent::Responded(Response::Accepted { length: Some(1) }),
            StepEvent::FileCreated { result: Ok(()), now: 0 },
            StepEvent::PieceRead(Piece::End),
            StepEvent::Flushed(Ok(())),
        ] {
            reports.extend(d.download_model(event).reports);
        }
    }
    assert_eq!(d.stage, Stage::Over);
    assert_eq!(reports.iter().filter(|r| is_outcome(r)).count(), 1);
    assert!(matches!(reports.last(), Some(Report::Complete(_))));
    let done: Vec<usize> = reports
        .iter()
        .filter_map(|r| match r {
            Report::Progress(p) if p.status == ProgressStatus::Complete => p.file.map(|f| f.index),
            _ => None,
        })
        .collect();
    assert_eq!(done, vec![0, 1, 2, 3]);
}
