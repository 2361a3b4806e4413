//! How a download gets from one step to the next.
use crate::stt::download;
use crate::stt::download::{
    Extraction, ModelDownload, OrtDownload, Piece, ProgressStatus, Report, ReportView, Response,
    Stage, Step, StepAction, StepEvent, StepView, Transfer,
};
use crate::stt::local;
use vstd::prelude::*;

verus! {

// What holds of any download.

/// The step asks for what its stage waits for.
pub open spec fn asks_for_what_it_waits_for(next: StepView) -> bool {
    match next.stage {
        Stage::Directory => next.action is CreateDirectory,
        Stage::Client => next.action is BuildClient,
        Stage::Response => next.action is Request,
        Stage::File { .. } => next.action is CreateFile,
        Stage::Reading { .. } => next.action is ReadPiece,
        Stage::Writing { .. } => next.action is WritePiece,
        Stage::Flushing { .. } => next.action is Flush,
        Stage::Extracting => next.action is Extract,
        Stage::Over => next.action is Stop,
    }
}

/// What went wrong, if the event tells of a failure.
pub open spec fn failure_of(event: StepEvent) -> Option<Seq<char>> {
    match event {
        StepEvent::DirectoryCreated(Err(why)) => Some(why@),
        StepEvent::ClientBuilt(Err(why)) => Some(why@),
        StepEvent::Responded(Response::Failed(why)) => Some(why@),
        StepEvent::Responded(Response::Refused { status }) => Some(status@),
        StepEvent::FileCreated { result: Err(why), .. } => Some(why@),
        StepEvent::PieceRead(Piece::Failed(why)) => Some(why@),
        StepEvent::PieceWritten { result: Err(why), .. } => Some(why@),
        StepEvent::Flushed(Err(why)) => Some(why@),
        StepEvent::Extracted(Extraction::Failed(why)) => Some(why@),
        StepEvent::Extracted(Extraction::Crashed(why)) => Some(why@),
        _ => None,
    }
}

/// The download is over, and its one report says first what was tried and then what
/// went wrong.
pub open spec fn gives_up(next: StepView, tried: Seq<char>, why: Seq<char>) -> bool {
    &&& next.stage is Over
    &&& next.action is Stop
    &&& next.reports.len() == 1
    &&& next.reports[0] is Error
    &&& next.reports[0]->Error_0.len() == tried.len() + why.len()
    &&& tried.is_prefix_of(next.reports[0]->Error_0)
    &&& why.is_suffix_of(next.reports[0]->Error_0)
}

/// The transfer goes on as it was.
pub open spec fn same_transfer(a: Transfer, b: Transfer) -> bool {
    a.total == b.total && a.downloaded == b.downloaded && a.reported_at == b.reported_at
}

/// A piece that was read is written next: nothing is reported, and the transfer stays
/// as it is until then.
pub open spec fn writes_the_piece(transfer: Transfer, length: u64, next: StepView) -> bool {
    &&& next.stage is Writing
    &&& same_transfer(next.stage->Writing_transfer, transfer)
    &&& next.stage->length == length
    &&& next.action is WritePiece
    &&& next.reports.len() == 0
}

/// After a piece that was written the next one is read. The bytes of the piece count
/// as downloaded, and they are reported if the last report is a tenth of a second old,
/// and only then.
pub open spec fn reads_on(transfer: Transfer, length: u64, now: u64, next: StepView) -> bool {
    let late = now - transfer.reported_at >= 100_000_000;
    &&& next.stage is Reading
    &&& next.stage->Reading_transfer.total == transfer.total
    &&& next.stage->Reading_transfer.downloaded == transfer.downloaded + length
    &&& next.stage->Reading_transfer.reported_at == if late {
        now
    } else {
        transfer.reported_at
    }
    &&& next.action is ReadPiece
    &&& next.reports.len() == if late {
        1nat
    } else {
        0nat
    }
    &&& late ==> {
        &&& next.reports[0] is Progress
        &&& next.reports[0]->Progress_0.status == ProgressStatus::Downloading
        &&& next.reports[0]->Progress_0.bytes_downloaded == transfer.downloaded + length
        &&& next.reports[0]->Progress_0.total_bytes == transfer.total
    }
}

/// At the end of the answer the file is flushed.
pub open spec fn flushes(transfer: Transfer, next: StepView) -> bool {
    &&& next.stage is Flushing
    &&& same_transfer(next.stage->Flushing_transfer, transfer)
    &&& next.action is Flush
    &&& next.reports.len() == 0
}

/// Once the file is there the transfer begins with nothing downloaded.
pub open spec fn begins_to_read(total: u64, now: u64, next: StepView) -> bool {
    &&& next.stage is Reading
    &&& next.stage->Reading_transfer.total == total
    &&& next.stage->Reading_transfer.downloaded == 0
    &&& next.stage->Reading_transfer.reported_at == now
    &&& next.action is ReadPiece
    &&& next.reports.len() == 0
}

/// An answer leads to a file of that name, with the length that is told or none.
pub open spec fn creates_file(length: Option<u64>, name: Seq<char>, next: StepView) -> bool {
    &&& next.stage is File
    &&& length matches Some(n) ==> next.stage->total == n
    &&& length is None ==> next.stage->total == 0
    &&& next.action is CreateFile
    &&& next.action->name@ == name
    &&& next.reports.len() == 0
}

/// One report on the state of the download.
pub open spec fn says(next: StepView, what: Seq<char>) -> bool {
    next.reports.len() == 1 && next.reports[0] is Status && next.reports[0]->Status_0 == what
}

/// A step is seen as it is, and so is each of its reports.
pub proof fn law_steps_are_seen_as_they_are(step: Step, k: int)
    requires
        0 <= k < step.reports@.len(),
    ensures
        step@.stage == step.stage,
        step@.action == step.action,
        step@.reports.len() == step.reports@.len(),
        match step.reports@[k] {
            Report::Status(t) => step@.reports[k] == ReportView::Status(t@),
            Report::Progress(p) => step@.reports[k] == ReportView::Progress(p),
            Report::Complete(t) => step@.reports[k] == ReportView::Complete(t@),
            Report::Error(t) => step@.reports[k] == ReportView::Error(t@),
        },
{
}

/// A step without reports is seen without reports.
pub proof fn law_silence_is_seen(step: Step)
    ensures
        step@.stage == step.stage,
        step@.action == step.action,
        step@.reports.len() == step.reports@.len(),
{
}

/// It is time for a report once a tenth of a second has passed.
pub proof fn law_reports_are_due_after_a_tenth_of_a_second(t: Transfer, now: u64)
    ensures
        download::due(t, now) <==> now - t.reported_at >= 100_000_000,
{
}

/// A download may take an hour.
pub proof fn law_download_may_take_an_hour()
    ensures
        download::DOWNLOAD_TIMEOUT_SECONDS == 60 * 60,
{
}

/// A stage waits for the outcome of the action that belongs to it, and for no other
/// event.
pub proof fn law_events_answer_actions(next: StepView, event: StepEvent)
    requires
        asks_for_what_it_waits_for(next),
        download::expects(next.stage, event),
    ensures
        event is DirectoryCreated <==> next.action is CreateDirectory,
        event is ClientBuilt <==> next.action is BuildClient,
        event is Responded <==> next.action is Request,
        event is FileCreated <==> next.action is CreateFile,
        event is PieceRead <==> next.action is ReadPiece,
        event is PieceWritten <==> next.action is WritePiece,
        event is Flushed <==> next.action is Flush,
        event is Extracted <==> next.action is Extract,
        !(next.action is Stop),
{
}

/// Whatever came of an action, the stage that asked for it takes it, as long as the
/// bytes can be counted.
pub proof fn law_every_outcome_is_taken(next: StepView, event: StepEvent)
    requires
        asks_for_what_it_waits_for(next),
        next.stage matches Stage::Writing { transfer, length } ==> transfer.downloaded + length
            <= u64::MAX,
        match next.action {
            StepAction::CreateDirectory => event is DirectoryCreated,
            StepAction::BuildClient => event is ClientBuilt,
            StepAction::Request { .. } => event is Responded,
            StepAction::CreateFile { .. } => event is FileCreated,
            StepAction::ReadPiece => event is PieceRead,
            StepAction::WritePiece => event is PieceWritten,
            StepAction::Flush => event is Flushed,
            StepAction::Extract => event is Extracted,
            StepAction::Stop => false,
        },
    ensures
        download::expects(next.stage, event),
{
}

// The runtime.

/// What a download of the runtime tried when an event came.
pub open spec fn ort_tried(event: StepEvent) -> Seq<char> {
    match event {
        StepEvent::DirectoryCreated(_) => "Failed to create directory: "@,
        StepEvent::ClientBuilt(_) => "Failed to create HTTP client: "@,
        StepEvent::Responded(Response::Refused { .. }) => "Download failed: HTTP "@,
        StepEvent::Responded(_) => "Failed to download: "@,
        StepEvent::FileCreated { .. } => "Failed to create temp file: "@,
        StepEvent::PieceRead(_) => "Download error: "@,
        StepEvent::PieceWritten { .. } => "Failed to write: "@,
        StepEvent::Flushed(_) => "Failed to flush: "@,
        StepEvent::Extracted(Extraction::Crashed(_)) => "Task failed: "@,
        StepEvent::Extracted(_) => "Extraction failed: "@,
    }
}

/// A download of the runtime begins with the directory, and fails at once where there
/// is no runtime for the machine.
pub proof fn law_ort_begins(url: Seq<char>)
    ensures
        ({
            let there = download::ort_beginning(Some(url));
            &&& there.stage is Directory
            &&& there.action is CreateDirectory
            &&& there.reports.len() == 0
        }),
        gives_up(
            download::ort_beginning(None),
            "ONNX Runtime download not supported for this platform"@,
            seq![],
        ),
{
    let missing = "ONNX Runtime download not supported for this platform"@;
    assert(missing.subrange(0, missing.len() as int) =~= missing);
    assert(missing.subrange(missing.len() as int, missing.len() as int) =~= seq![]);
}

/// Whatever fails ends the download of the runtime, with a report on what was tried
/// and what went wrong; nothing else ends it but the extracted library.
pub proof fn law_ort_gives_up_on_failures(stage: Stage, url: &'static str, event: StepEvent)
    requires
        download::expects(stage, event),
    ensures
        ({
            let next = download::ort_step(stage, url, event);
            &&& asks_for_what_it_waits_for(next)
            &&& failure_of(event) matches Some(why) ==> gives_up(next, ort_tried(event), why)
            &&& failure_of(event) is None && !(event is Extracted) ==> !(next.stage is Over)
        }),
{
    let next = download::ort_step(stage, url, event);
    if let Some(why) = failure_of(event) {
        let tried = ort_tried(event);
        let whole = tried + why;
        assert(next.reports[0] == ReportView::Error(whole));
        assert(whole.subrange(0, tried.len() as int) =~= tried);
        assert(whole.subrange(tried.len() as int, whole.len() as int) =~= why);
    }
}

/// The file of the runtime is flushed only at the end of the answer; a piece that was
/// read is written; after a piece that was written the next one is read, with its
/// bytes counted.
pub proof fn law_ort_transfers_every_piece(stage: Stage, url: &'static str, event: StepEvent)
    requires
        download::expects(stage, event),
    ensures
        ({
            let next = download::ort_step(stage, url, event);
            &&& next.action is Flush || next.stage is Flushing <==> event == StepEvent::PieceRead(
                Piece::End,
            )
            &&& (stage matches Stage::File { total } && event matches StepEvent::FileCreated {
                result: Ok(_),
                now,
            }) ==> begins_to_read(stage->total, event->FileCreated_now, next)
            &&& event matches StepEvent::PieceRead(Piece::Data { length }) ==> writes_the_piece(
                stage->Reading_transfer,
                length,
                next,
            )
            &&& event == StepEvent::PieceRead(Piece::End) ==> flushes(stage->Reading_transfer, next)
            &&& event matches StepEvent::PieceWritten { result: Ok(_), now } ==> reads_on(
                stage->Writing_transfer,
                stage->length,
                now,
                next,
            )
        }),
{
}

/// Around the transfer a download of the runtime says what it does, asks for the
/// address it has, and keeps the archive in a file of its own until it is extracted.
pub proof fn law_ort_fetches_and_extracts(stage: Stage, url: &'static str, event: StepEvent)
    requires
        download::expects(stage, event),
    ensures
        ({
            let next = download::ort_step(stage, url, event);
            &&& event matches StepEvent::DirectoryCreated(Ok(_)) ==> next.stage is Client && says(
                next,
                "Downloading ONNX Runtime..."@,
            )
            &&& event matches StepEvent::ClientBuilt(Ok(_)) ==> next.stage is Response
                && next.action->url == url && next.reports.len() == 0
            &&& event matches StepEvent::Responded(Response::Accepted { length }) ==> creates_file(
                length,
                "onnxruntime_download.tmp"@,
                next,
            )
            &&& event matches StepEvent::Flushed(Ok(_)) ==> next.stage is Extracting && says(
                next,
                "Extracting ONNX Runtime..."@,
            )
            &&& event == StepEvent::Extracted(Extraction::Done) ==> {
                &&& next.stage is Over
                &&& next.reports.len() == 1
                &&& next.reports[0] == ReportView::Complete("ONNX Runtime installed successfully"@)
            }
        }),
{
}

/// What a download of the runtime reports on its way names no file.
pub proof fn law_ort_reports_name_no_file(stage: Stage, url: &'static str, event: StepEvent, k: int)
    requires
        download::expects(stage, event),
        0 <= k < download::ort_step(stage, url, event).reports.len(),
        download::ort_step(stage, url, event).reports[k] is Progress,
    ensures
        download::ort_step(stage, url, event).reports[k]->Progress_0.file is None,
{
}

// The model.

/// What a download of the model tried, at the file of that name, when an event came.
pub open spec fn model_tried(name: Seq<char>, event: StepEvent) -> Seq<char> {
    match event {
        StepEvent::DirectoryCreated(_) => "Failed to create model directory: "@,
        StepEvent::ClientBuilt(_) => "Failed to create HTTP client: "@,
        StepEvent::Responded(Response::Refused { .. }) => "Failed to download "@ + name
            + ": HTTP "@,
        StepEvent::Responded(_) => "Failed to download "@ + name + ": "@,
        StepEvent::FileCreated { .. } => "Failed to create file "@ + name + ": "@,
        StepEvent::PieceRead(_) => "Download error for "@ + name + ": "@,
        StepEvent::PieceWritten { .. } => "Failed to write to "@ + name + ": "@,
        _ => "Failed to flush "@ + name + ": "@,
    }
}

/// The report is on the progress of the file at the place `i`.
pub open spec fn is_on_file(r: ReportView, i: int) -> bool {
    &&& r is Progress
    &&& r->Progress_0.file is Some
    &&& r->Progress_0.file->0.name@ == local::model_file_list()[i].name@
    &&& r->Progress_0.file->0.index == i
    &&& r->Progress_0.file->0.total == local::model_file_list().len()
}

/// The report says that the file at the place `i` begins.
pub open spec fn says_it_begins(r: ReportView, i: int) -> bool {
    &&& is_on_file(r, i)
    &&& r->Progress_0.status == ProgressStatus::Starting
    &&& r->Progress_0.bytes_downloaded == 0
    &&& r->Progress_0.total_bytes == 0
}

/// Whatever fails ends the download of the model, with a report on what was tried, at
/// which file, and what went wrong; nothing else ends it but its last file.
pub proof fn law_model_gives_up_on_failures(stage: Stage, i: int, event: StepEvent)
    requires
        download::expects(stage, event),
        !(stage is Extracting),
        0 <= i < local::model_file_list().len(),
    ensures
        ({
            let next = download::model_step(stage, i, event).step;
            let name = local::model_file_list()[i].name@;
            &&& asks_for_what_it_waits_for(next)
            &&& failure_of(event) matches Some(why) ==> gives_up(
                next,
                model_tried(name, event),
                why,
            )
            &&& failure_of(event) is None && !(event is Flushed && i
                == local::model_file_list().len() - 1) ==> !(next.stage is Over)
        }),
{
    let next = download::model_step(stage, i, event).step;
    if let Some(why) = failure_of(event) {
        let tried = model_tried(local::model_file_list()[i].name@, event);
        let whole = tried + why;
        assert(next.reports[0] == ReportView::Error(whole));
        assert(whole.subrange(0, tried.len() as int) =~= tried);
        assert(whole.subrange(tried.len() as int, whole.len() as int) =~= why);
    }
}

/// A file of the model is flushed only at the end of its answer; a piece that was read
/// is written; after a piece that was written the next one is read, with its bytes
/// counted. All of that stays at the same file.
pub proof fn law_model_transfers_every_piece(stage: Stage, i: int, event: StepEvent)
    requires
        download::expects(stage, event),
        !(stage is Extracting),
        0 <= i < local::model_file_list().len(),
    ensures
        ({
            let next = download::model_step(stage, i, event).step;
            &&& !(event is Flushed) ==> download::model_step(stage, i, event).index == i
            &&& next.action is Flush || next.stage is Flushing <==> event == StepEvent::PieceRead(
                Piece::End,
            )
            &&& (stage matches Stage::File { total } && event matches StepEvent::FileCreated {
                result: Ok(_),
                now,
            }) ==> begins_to_read(stage->total, event->FileCreated_now, next)
            &&& event matches StepEvent::PieceRead(Piece::Data { length }) ==> writes_the_piece(
                stage->Reading_transfer,
                length,
                next,
            )
            &&& event == StepEvent::PieceRead(Piece::End) ==> flushes(stage->Reading_transfer, next)
            &&& event matches StepEvent::PieceWritten { result: Ok(_), now } ==> reads_on(
                stage->Writing_transfer,
                stage->length,
                now,
                next,
            ) && (next.reports.len() > 0 ==> is_on_file(next.reports[0], i))
        }),
{
}

/// Around the transfer a download of the model says what it does, asks for the address
/// of each file and keeps each under its name.
pub proof fn law_model_fetches_each_file(stage: Stage, i: int, event: StepEvent)
    requires
        download::expects(stage, event),
        !(stage is Extracting),
        0 <= i < local::model_file_list().len(),
    ensures
        ({
            let next = download::model_step(stage, i, event).step;
            &&& event matches StepEvent::DirectoryCreated(Ok(_)) ==> next.stage is Client && says(
                next,
                "Starting download..."@,
            )
            &&& event matches StepEvent::ClientBuilt(Ok(_)) ==> {
                &&& next.stage is Response
                &&& next.action->url@ == local::model_file_list()[i].url@
                &&& next.reports.len() == 1
                &&& says_it_begins(next.reports[0], i)
            }
            &&& event matches StepEvent::Responded(Response::Accepted { length }) ==> creates_file(
                length,
                local::model_file_list()[i].name@,
                next,
            )
        }),
{
}

/// A file of the model that is flushed is reported as complete with all its bytes.
/// Then the next file begins; after the last one the download is a success.
pub proof fn law_model_goes_on_to_the_next_file(stage: Stage, i: int, event: StepEvent)
    requires
        download::expects(stage, event),
        event matches StepEvent::Flushed(Ok(_)),
        0 <= i < local::model_file_list().len(),
    ensures
        ({
            let next = download::model_step(stage, i, event);
            let transfer = stage->Flushing_transfer;
            &&& next.step.reports.len() == 2
            &&& is_on_file(next.step.reports[0], i)
            &&& next.step.reports[0]->Progress_0.status == ProgressStatus::Complete
            &&& next.step.reports[0]->Progress_0.bytes_downloaded == transfer.downloaded
            &&& next.step.reports[0]->Progress_0.total_bytes == transfer.total
            &&& i < local::model_file_list().len() - 1 ==> {
                &&& next.index == i + 1
                &&& next.step.stage is Response
                &&& next.step.action is Request
                &&& next.step.action->url@ == local::model_file_list()[i + 1].url@
                &&& says_it_begins(next.step.reports[1], i + 1)
            }
            &&& i == local::model_file_list().len() - 1 ==> {
                &&& next.index == i
                &&& next.step.stage is Over
                &&& next.step.action is Stop
                &&& next.step.reports[1] == ReportView::Complete(
                    "All model files downloaded successfully"@,
                )
            }
        }),
{
}

// Downloads as they are carried out.

/// A download of the runtime keeps its address, and waits for what its last step says.
pub proof fn law_ort_downloads(d: &mut OrtDownload, event: StepEvent, r: Step)
    requires
        call_ensures(OrtDownload::download_ort, (d, event), r),
    ensures
        final(d).url == old(d).url,
        final(d).stage == r.stage,
        r@ == download::ort_step(old(d).stage, old(d).url, event),
{
}

/// A download of the model waits for what its last step says, at the file that the step
/// leads to.
pub proof fn law_model_downloads(d: &mut ModelDownload, event: StepEvent, r: Step)
    requires
        call_ensures(ModelDownload::download_model, (d, event), r),
    ensures
        final(d).wf(),
        final(d).stage == r.stage,
        r@ == download::model_step(old(d).stage, old(d).index as int, event).step,
        final(d).index == download::model_step(old(d).stage, old(d).index as int, event).index,
{
}

/// A download of the model begins with its first file and the directory.
pub proof fn law_model_begins(r: (ModelDownload, Step))
    requires
        call_ensures(ModelDownload::begin, (), r),
    ensures
        r.0.index == 0,
        r.0.stage is Directory,
        r.1.stage is Directory,
        r.1.action is CreateDirectory,
        r.1.reports@.len() == 0,
{
    law_silence_is_seen(r.1);
}

} // verus!
