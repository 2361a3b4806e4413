//! Downloads, step by step. Whoever carries a download out performs the action that
//! it asks for, tells it what came of that, and passes on the events that it
//! reports on the way.
use crate::stt::local;
use crate::stt::local::ModelFile;
use crate::text;
use vstd::prelude::*;

verus! {

/// How long a download may take, in seconds.
pub const DOWNLOAD_TIMEOUT_SECONDS: u64 = 3_600;

/// How long at least two reports on the progress lie apart, in nanoseconds.
pub const REPORT_INTERVAL: u64 = 100_000_000;

// What a download reports.

/// How far a file has got.
#[derive(Debug, Clone, Copy, PartialEq, Eq, Structural)]
pub enum ProgressStatus {
    Starting,
    Downloading,
    Complete,
}

/// A file among the files of a download.
#[derive(Debug, Clone, Copy)]
pub struct FileRef {
    pub name: &'static str,
    pub index: usize,
    pub total: usize,
}

/// How far a download has got. A download of one file does not name it.
#[derive(Debug, Clone, Copy)]
pub struct Progress {
    pub file: Option<FileRef>,
    pub status: ProgressStatus,
    pub bytes_downloaded: u64,
    pub total_bytes: u64,
}

/// What a download reports.
pub enum Report {
    Status(&'static str),
    Progress(Progress),
    Complete(&'static str),
    Error(String),
}

/// A report as contracts speak of it.
pub enum ReportView {
    Status(Seq<char>),
    Progress(Progress),
    Complete(Seq<char>),
    Error(Seq<char>),
}

impl View for Report {
    type V = ReportView;

    open spec fn view(&self) -> ReportView {
        match *self {
            Report::Status(t) => ReportView::Status(t@),
            Report::Progress(p) => ReportView::Progress(p),
            Report::Complete(t) => ReportView::Complete(t@),
            Report::Error(t) => ReportView::Error(t@),
        }
    }
}

/// The reports of a list.
pub open spec fn report_views(v: Seq<Report>) -> Seq<ReportView> {
    v.map_values(|r: Report| r@)
}

// What a download is told, and what it asks for.

/// What came of a request.
pub enum Response {
    /// There is no answer.
    Failed(String),
    /// The answer is an error; its status is given with the reason.
    Refused { status: String },
    /// The answer is the file, whose length may be told.
    Accepted { length: Option<u64> },
}

/// What came of reading a piece of the answer.
pub enum Piece {
    Data { length: u64 },
    Failed(String),
    End,
}

/// What came of extracting an archive.
pub enum Extraction {
    Done,
    Failed(String),
    Crashed(String),
}

/// What came of an action. Times count in nanoseconds from some moment.
pub enum StepEvent {
    DirectoryCreated(Result<(), String>),
    ClientBuilt(Result<(), String>),
    Responded(Response),
    FileCreated { result: Result<(), String>, now: u64 },
    PieceRead(Piece),
    PieceWritten { result: Result<(), String>, now: u64 },
    Flushed(Result<(), String>),
    Extracted(Extraction),
}

/// What a download asks for.
pub enum StepAction {
    CreateDirectory,
    /// Make a client that waits as long as [`DOWNLOAD_TIMEOUT_SECONDS`].
    BuildClient,
    Request { url: &'static str },
    CreateFile { name: &'static str },
    ReadPiece,
    WritePiece,
    Flush,
    Extract,
    Stop,
}

/// How far the transfer of a file has got: its length as far as it is told, the
/// bytes written, and the time of the last report.
#[derive(Debug, Clone, Copy, PartialEq, Eq, Structural)]
pub struct Transfer {
    pub total: u64,
    pub downloaded: u64,
    pub reported_at: u64,
}

/// What a download waits for.
#[derive(Debug, Clone, Copy, PartialEq, Eq, Structural)]
pub enum Stage {
    Directory,
    Client,
    Response,
    File { total: u64 },
    Reading { transfer: Transfer },
    Writing { transfer: Transfer, length: u64 },
    Flushing { transfer: Transfer },
    Extracting,
    Over,
}

/// The event answers the action that the stage waits for, and what is written fits
/// into the count of bytes.
pub open spec fn expects(stage: Stage, event: StepEvent) -> bool {
    match stage {
        Stage::Directory => event is DirectoryCreated,
        Stage::Client => event is ClientBuilt,
        Stage::Response => event is Responded,
        Stage::File { .. } => event is FileCreated,
        Stage::Reading { .. } => event is PieceRead,
        Stage::Writing { transfer, length } => event is PieceWritten && transfer.downloaded + length
            <= u64::MAX,
        Stage::Flushing { .. } => event is Flushed,
        Stage::Extracting => event is Extracted,
        Stage::Over => false,
    }
}

// Transfers.

/// A transfer that begins.
pub open spec fn begun(total: u64, now: u64) -> Transfer {
    Transfer { total, downloaded: 0, reported_at: now }
}

/// It is time for a report.
pub open spec fn due(t: Transfer, now: u64) -> bool {
    now >= t.reported_at + REPORT_INTERVAL
}

/// A transfer after a piece was written.
pub open spec fn advanced(t: Transfer, length: u64, now: u64) -> Transfer {
    Transfer {
        total: t.total,
        downloaded: (t.downloaded + length) as u64,
        reported_at: if due(t, now) {
            now
        } else {
            t.reported_at
        },
    }
}

/// The progress of a transfer.
pub open spec fn progress_of(file: Option<FileRef>, status: ProgressStatus, t: Transfer) -> Progress {
    Progress { file, status, bytes_downloaded: t.downloaded, total_bytes: t.total }
}

fn advance(t: Transfer, length: u64, now: u64) -> (r: (Transfer, bool))
    requires
        t.downloaded + length <= u64::MAX,
    ensures
        r.0 == advanced(t, length, now),
        r.1 == due(t, now),
{
    let is_due = now >= t.reported_at && now - t.reported_at >= REPORT_INTERVAL;
    let transfer = Transfer {
        total: t.total,
        downloaded: t.downloaded + length,
        reported_at: if is_due {
            now
        } else {
            t.reported_at
        },
    };
    (transfer, is_due)
}

/// What follows a step: the stage, the reports and the action.
pub struct Step {
    pub stage: Stage,
    pub reports: Vec<Report>,
    pub action: StepAction,
}

/// What follows a step, as contracts speak of it.
pub struct StepView {
    pub stage: Stage,
    pub reports: Seq<ReportView>,
    pub action: StepAction,
}

impl View for Step {
    type V = StepView;

    open spec fn view(&self) -> StepView {
        StepView {
            stage: self.stage,
            reports: report_views(self.reports@),
            action: self.action,
        }
    }
}

/// A step without a report.
pub open spec fn silent_step(stage: Stage, action: StepAction) -> StepView {
    StepView { stage, reports: seq![], action }
}

/// A step with one report.
pub open spec fn told_step(stage: Stage, report: ReportView, action: StepAction) -> StepView {
    StepView { stage, reports: seq![report], action }
}

/// The end of a download in an error.
pub open spec fn failed_step(error: Seq<char>) -> StepView {
    told_step(Stage::Over, ReportView::Error(error), StepAction::Stop)
}

fn silent(stage: Stage, action: StepAction) -> (r: Step)
    ensures
        r@ == silent_step(stage, action),
{
    let reports: Vec<Report> = Vec::new();
    assert(report_views(reports@) =~= seq![]);
    Step { stage, reports, action }
}

fn told(stage: Stage, report: Report, action: StepAction) -> (r: Step)
    ensures
        r@ == told_step(stage, report@, action),
{
    let reports = vec![report];
    assert(report_views(reports@) =~= seq![report@]);
    Step { stage, reports, action }
}

fn failed(error: String) -> (r: Step)
    ensures
        r@ == failed_step(error@),
{
    told(Stage::Over, Report::Error(error), StepAction::Stop)
}

/// The length of a file as it is reported: zero if it is not told.
pub open spec fn told_length(length: Option<u64>) -> u64 {
    match length {
        Some(n) => n,
        None => 0,
    }
}

// The runtime.

/// The file that the archive of the runtime is kept in until it is extracted.
pub open spec fn archive_file() -> &'static str {
    "onnxruntime_download.tmp"
}

/// A download of the runtime.
pub struct OrtDownload {
    pub stage: Stage,
    pub url: &'static str,
}

/// How a download of the runtime begins: with an error if there is no runtime for
/// the machine, else with the directory.
pub open spec fn ort_beginning(url: Option<Seq<char>>) -> StepView {
    match url {
        Some(_) => silent_step(Stage::Directory, StepAction::CreateDirectory),
        None => failed_step("ONNX Runtime download not supported for this platform"@),
    }
}

/// How a download of the runtime goes on.
pub open spec fn ort_step(stage: Stage, url: &'static str, event: StepEvent) -> StepView {
    match (stage, event) {
        (Stage::Directory, StepEvent::DirectoryCreated(Ok(_))) => told_step(
            Stage::Client,
            ReportView::Status("Downloading ONNX Runtime..."@),
            StepAction::BuildClient,
        ),
        (Stage::Directory, StepEvent::DirectoryCreated(Err(why))) => failed_step(
            "Failed to create directory: "@ + why@,
        ),
        (Stage::Client, StepEvent::ClientBuilt(Ok(_))) => silent_step(
            Stage::Response,
            StepAction::Request { url },
        ),
        (Stage::Client, StepEvent::ClientBuilt(Err(why))) => failed_step(
            "Failed to create HTTP client: "@ + why@,
        ),
        (Stage::Response, StepEvent::Responded(Response::Accepted { length })) => silent_step(
            Stage::File { total: told_length(length) },
            StepAction::CreateFile { name: archive_file() },
        ),
        (Stage::Response, StepEvent::Responded(Response::Refused { status })) => failed_step(
            "Download failed: HTTP "@ + status@,
        ),
        (Stage::Response, StepEvent::Responded(Response::Failed(why))) => failed_step(
            "Failed to download: "@ + why@,
        ),
        (Stage::File { total }, StepEvent::FileCreated { result: Ok(_), now }) => silent_step(
            Stage::Reading { transfer: begun(total, now) },
            StepAction::ReadPiece,
        ),
        (Stage::File { total }, StepEvent::FileCreated { result: Err(why), now }) => failed_step(
            "Failed to create temp file: "@ + why@,
        ),
        (Stage::Reading { transfer }, StepEvent::PieceRead(Piece::Data { length })) => silent_step(
            Stage::Writing { transfer, length },
            StepAction::WritePiece,
        ),
        (Stage::Reading { transfer }, StepEvent::PieceRead(Piece::Failed(why))) => failed_step(
            "Download error: "@ + why@,
        ),
        (Stage::Reading { transfer }, StepEvent::PieceRead(Piece::End)) => silent_step(
            Stage::Flushing { transfer },
            StepAction::Flush,
        ),
        (
            Stage::Writing { transfer, length },
            StepEvent::PieceWritten { result: Ok(_), now },
        ) => {
            let after = advanced(transfer, length, now);
            if due(transfer, now) {
                told_step(
                    Stage::Reading { transfer: after },
                    ReportView::Progress(progress_of(None, ProgressStatus::Downloading, after)),
                    StepAction::ReadPiece,
                )
            } else {
                silent_step(Stage::Reading { transfer: after }, StepAction::ReadPiece)
            }
        },
        (
            Stage::Writing { transfer, length },
            StepEvent::PieceWritten { result: Err(why), now },
        ) => failed_step("Failed to write: "@ + why@),
        (Stage::Flushing { transfer }, StepEvent::Flushed(Ok(_))) => told_step(
            Stage::Extracting,
            ReportView::Status("Extracting ONNX Runtime..."@),
            StepAction::Extract,
        ),
        (Stage::Flushing { transfer }, StepEvent::Flushed(Err(why))) => failed_step(
            "Failed to flush: "@ + why@,
        ),
        (Stage::Extracting, StepEvent::Extracted(Extraction::Done)) => told_step(
            Stage::Over,
            ReportView::Complete("ONNX Runtime installed successfully"@),
            StepAction::Stop,
        ),
        (Stage::Extracting, StepEvent::Extracted(Extraction::Failed(why))) => failed_step(
            "Extraction failed: "@ + why@,
        ),
        (Stage::Extracting, StepEvent::Extracted(Extraction::Crashed(why))) => failed_step(
            "Task failed: "@ + why@,
        ),
        _ => silent_step(Stage::Over, StepAction::Stop),
    }
}

impl OrtDownload {
    /// Begins a download of the runtime, if there is one for the machine.
    pub fn begin(url: Option<&'static str>) -> (r: (OrtDownload, Step))
        ensures
            r.1@ == ort_beginning(url_text(url)),
            r.0.stage == r.1.stage,
            url matches Some(u) ==> r.0.url == u,
    {
        match url {
            Some(url) => {
                let step = silent(Stage::Directory, StepAction::CreateDirectory);
                (OrtDownload { stage: step.stage, url }, step)
            },
            None => {
                let step = failed(
                    "ONNX Runtime download not supported for this platform".to_owned(),
                );
                (OrtDownload { stage: step.stage, url: "" }, step)
            },
        }
    }

    /// Goes on with a download of the runtime.
    pub fn download_ort(&mut self, event: StepEvent) -> (r: Step)
        requires
            expects(old(self).stage, event),
        ensures
            r@ == ort_step(old(self).stage, old(self).url, event),
            final(self).stage == r.stage,
            final(self).url == old(self).url,
    {
        let step = ort_follow(self.stage, self.url, event);
        self.stage = step.stage;
        step
    }
}

fn ort_follow(stage: Stage, url: &'static str, event: StepEvent) -> (r: Step)
    requires
        expects(stage, event),
    ensures
        r@ == ort_step(stage, url, event),
{
    match (stage, event) {
        (Stage::Directory, StepEvent::DirectoryCreated(result)) => match result {
            Ok(_) => told(
                Stage::Client,
                Report::Status("Downloading ONNX Runtime..."),
                StepAction::BuildClient,
            ),
            Err(why) => failed(text::concat("Failed to create directory: ", why.as_str())),
        },
        (Stage::Client, StepEvent::ClientBuilt(result)) => match result {
            Ok(_) => silent(Stage::Response, StepAction::Request { url }),
            Err(why) => failed(text::concat("Failed to create HTTP client: ", why.as_str())),
        },
        (Stage::Response, StepEvent::Responded(response)) => match response {
            Response::Accepted { length } => {
                let total: u64 = match length {
                    Some(n) => n,
                    None => 0,
                };
                silent(
                    Stage::File { total },
                    StepAction::CreateFile { name: "onnxruntime_download.tmp" },
                )
            },
            Response::Refused { status } => failed(
                text::concat("Download failed: HTTP ", status.as_str()),
            ),
            Response::Failed(why) => failed(text::concat("Failed to download: ", why.as_str())),
        },
        (Stage::File { total }, StepEvent::FileCreated { result, now }) => match result {
            Ok(_) => silent(
                Stage::Reading { transfer: Transfer { total, downloaded: 0, reported_at: now } },
                StepAction::ReadPiece,
            ),
            Err(why) => failed(text::concat("Failed to create temp file: ", why.as_str())),
        },
        (Stage::Reading { transfer }, StepEvent::PieceRead(piece)) => match piece {
            Piece::Data { length } => silent(
                Stage::Writing { transfer, length },
                StepAction::WritePiece,
            ),
            Piece::Failed(why) => failed(text::concat("Download error: ", why.as_str())),
            Piece::End => silent(Stage::Flushing { transfer }, StepAction::Flush),
        },
        (Stage::Writing { transfer, length }, StepEvent::PieceWritten { result, now }) => {
            match result {
                Ok(_) => {
                    let (after, is_due) = advance(transfer, length, now);
                    if is_due {
                        let progress = Progress {
                            file: None,
                            status: ProgressStatus::Downloading,
                            bytes_downloaded: after.downloaded,
                            total_bytes: after.total,
                        };
                        told(
                            Stage::Reading { transfer: after },
                            Report::Progress(progress),
                            StepAction::ReadPiece,
                        )
                    } else {
                        silent(Stage::Reading { transfer: after }, StepAction::ReadPiece)
                    }
                },
                Err(why) => failed(text::concat("Failed to write: ", why.as_str())),
            }
        },
        (Stage::Flushing { transfer: _ }, StepEvent::Flushed(result)) => match result {
            Ok(_) => told(
                Stage::Extracting,
                Report::Status("Extracting ONNX Runtime..."),
                StepAction::Extract,
            ),
            Err(why) => failed(text::concat("Failed to flush: ", why.as_str())),
        },
        (Stage::Extracting, StepEvent::Extracted(extraction)) => match extraction {
            Extraction::Done => told(
                Stage::Over,
                Report::Complete("ONNX Runtime installed successfully"),
                StepAction::Stop,
            ),
            Extraction::Failed(why) => failed(text::concat("Extraction failed: ", why.as_str())),
            Extraction::Crashed(why) => failed(text::concat("Task failed: ", why.as_str())),
        },
        _ => silent(Stage::Over, StepAction::Stop),
    }
}

/// What came of extracting the library, by whether it is there in the end.
pub fn extraction_result(library_exists: bool) -> (r: Extraction)
    ensures
        if library_exists {
            r is Done
        } else {
            r matches Extraction::Failed(why) && why@ == "Library file not found in archive"@
        },
{
    if library_exists {
        Extraction::Done
    } else {
        Extraction::Failed("Library file not found in archive".to_owned())
    }
}

// The model.

/// A download of the model: what it waits for, and which file it is at.
pub struct ModelDownload {
    pub stage: Stage,
    pub index: usize,
}

/// What follows a step of a download of the model.
pub struct ModelStepView {
    pub step: StepView,
    pub index: int,
}

/// A file of the model among its files.
pub open spec fn model_file_ref(i: int) -> FileRef {
    FileRef {
        name: local::model_file_list()[i].name,
        index: i as usize,
        total: local::model_file_list().len() as usize,
    }
}

/// The report that the download of a file begins.
pub open spec fn starting_report(i: int) -> ReportView {
    ReportView::Progress(
        Progress {
            file: Some(model_file_ref(i)),
            status: ProgressStatus::Starting,
            bytes_downloaded: 0,
            total_bytes: 0,
        },
    )
}

/// The name of a file of the model.
pub open spec fn model_file_name(i: int) -> Seq<char> {
    local::model_file_list()[i].name@
}

/// The request for a file of the model.
pub open spec fn model_request(i: int) -> StepAction {
    StepAction::Request { url: local::model_file_list()[i].url }
}

/// A step that stays at the same file.
pub open spec fn at_file(i: int, step: StepView) -> ModelStepView {
    ModelStepView { step, index: i }
}

/// How a download of the model goes on.
pub open spec fn model_step(stage: Stage, i: int, event: StepEvent) -> ModelStepView {
    let name = model_file_name(i);
    let file = Some(model_file_ref(i));
    match (stage, event) {
        (Stage::Directory, StepEvent::DirectoryCreated(Ok(_))) => at_file(
            i,
            told_step(
                Stage::Client,
                ReportView::Status("Starting download..."@),
                StepAction::BuildClient,
            ),
        ),
        (Stage::Directory, StepEvent::DirectoryCreated(Err(why))) => at_file(
            i,
            failed_step("Failed to create model directory: "@ + why@),
        ),
        (Stage::Client, StepEvent::ClientBuilt(Ok(_))) => at_file(
            i,
            told_step(Stage::Response, starting_report(i), model_request(i)),
        ),
        (Stage::Client, StepEvent::ClientBuilt(Err(why))) => at_file(
            i,
            failed_step("Failed to create HTTP client: "@ + why@),
        ),
        (Stage::Response, StepEvent::Responded(Response::Accepted { length })) => at_file(
            i,
            silent_step(
                Stage::File { total: told_length(length) },
                StepAction::CreateFile { name: local::model_file_list()[i].name },
            ),
        ),
        (Stage::Response, StepEvent::Responded(Response::Refused { status })) => at_file(
            i,
            failed_step("Failed to download "@ + name + ": HTTP "@ + status@),
        ),
        (Stage::Response, StepEvent::Responded(Response::Failed(why))) => at_file(
            i,
            failed_step("Failed to download "@ + name + ": "@ + why@),
        ),
        (Stage::File { total }, StepEvent::FileCreated { result: Ok(_), now }) => at_file(
            i,
            silent_step(
                Stage::Reading { transfer: begun(total, now) },
                StepAction::ReadPiece,
            ),
        ),
        (Stage::File { total }, StepEvent::FileCreated { result: Err(why), now }) => at_file(
            i,
            failed_step("Failed to create file "@ + name + ": "@ + why@),
        ),
        (Stage::Reading { transfer }, StepEvent::PieceRead(Piece::Data { length })) => at_file(
            i,
            silent_step(Stage::Writing { transfer, length }, StepAction::WritePiece),
        ),
        (Stage::Reading { transfer }, StepEvent::PieceRead(Piece::Failed(why))) => at_file(
            i,
            failed_step("Download error for "@ + name + ": "@ + why@),
        ),
        (Stage::Reading { transfer }, StepEvent::PieceRead(Piece::End)) => at_file(
            i,
            silent_step(Stage::Flushing { transfer }, StepAction::Flush),
        ),
        (
            Stage::Writing { transfer, length },
            StepEvent::PieceWritten { result: Ok(_), now },
        ) => {
            let after = advanced(transfer, length, now);
            at_file(
                i,
                if due(transfer, now) {
                    told_step(
                        Stage::Reading { transfer: after },
                        ReportView::Progress(
                            progress_of(file, ProgressStatus::Downloading, after),
                        ),
                        StepAction::ReadPiece,
                    )
                } else {
                    silent_step(Stage::Reading { transfer: after }, StepAction::ReadPiece)
                },
            )
        },
        (
            Stage::Writing { transfer, length },
            StepEvent::PieceWritten { result: Err(why), now },
        ) => at_file(i, failed_step("Failed to write to "@ + name + ": "@ + why@)),
        (Stage::Flushing { transfer }, StepEvent::Flushed(Ok(_))) => {
            let done = ReportView::Progress(progress_of(file, ProgressStatus::Complete, transfer));
            if i + 1 < local::model_file_list().len() {
                at_file(
                    i + 1,
                    StepView {
                        stage: Stage::Response,
                        reports: seq![done, starting_report(i + 1)],
                        action: model_request(i + 1),
                    },
                )
            } else {
                at_file(
                    i,
                    StepView {
                        stage: Stage::Over,
                        reports: seq![
                            done,
                            ReportView::Complete("All model files downloaded successfully"@),
                        ],
                        action: StepAction::Stop,
                    },
                )
            }
        },
        (Stage::Flushing { transfer }, StepEvent::Flushed(Err(why))) => at_file(
            i,
            failed_step("Failed to flush "@ + name + ": "@ + why@),
        ),
        _ => at_file(i, silent_step(Stage::Over, StepAction::Stop)),
    }
}

impl ModelDownload {
    /// The download is at one of the files, and extracts nothing.
    pub open spec fn wf(&self) -> bool {
        self.index < local::model_file_list().len() && !(self.stage is Extracting)
    }

    /// Begins a download of the model, with the directory.
    pub fn begin() -> (r: (ModelDownload, Step))
        ensures
            r.0.wf(),
            r.0.index == 0,
            r.0.stage == r.1.stage,
            r.1@ == silent_step(Stage::Directory, StepAction::CreateDirectory),
    {
        let step = silent(Stage::Directory, StepAction::CreateDirectory);
        (ModelDownload { stage: step.stage, index: 0 }, step)
    }

    /// Goes on with a download of the model.
    pub fn download_model(&mut self, event: StepEvent) -> (r: Step)
        requires
            old(self).wf(),
            expects(old(self).stage, event),
        ensures
            final(self).wf(),
            ({
                let next = model_step(old(self).stage, old(self).index as int, event);
                r@ == next.step && final(self).index == next.index
            }),
            final(self).stage == r.stage,
    {
        let (step, index) = model_follow(self.stage, self.index, event);
        self.stage = step.stage;
        self.index = index;
        step
    }
}

fn say(before: &str, name: &str, between: &str, why: &str) -> (r: String)
    ensures
        r@ == before@ + name@ + between@ + why@,
{
    let mut out = text::concat_three(before, name, between);
    out.append(why);
    out
}

fn starting(files: &Vec<ModelFile>, index: usize) -> (r: Report)
    requires
        files@ == local::model_file_list(),
        index < files@.len(),
    ensures
        r@ == starting_report(index as int),
{
    let file = FileRef { name: files[index].name, index, total: files.len() };
    Report::Progress(
        Progress {
            file: Some(file),
            status: ProgressStatus::Starting,
            bytes_downloaded: 0,
            total_bytes: 0,
        },
    )
}

fn model_follow(stage: Stage, index: usize, event: StepEvent) -> (r: (Step, usize))
    requires
        expects(stage, event),
        index < local::model_file_list().len(),
        !(stage is Extracting),
    ensures
        ({
            let next = model_step(stage, index as int, event);
            r.0@ == next.step && r.1 == next.index
        }),
        r.1 < local::model_file_list().len(),
        !(r.0.stage is Extracting),
{
    let files = local::model_files();
    let name = files[index].name;
    let file = FileRef { name, index, total: files.len() };
    match (stage, event) {
        (Stage::Directory, StepEvent::DirectoryCreated(result)) => match result {
            Ok(_) => (
                told(
                    Stage::Client,
                    Report::Status("Starting download..."),
                    StepAction::BuildClient,
                ),
                index,
            ),
            Err(why) => (
                failed(text::concat("Failed to create model directory: ", why.as_str())),
                index,
            ),
        },
        (Stage::Client, StepEvent::ClientBuilt(result)) => match result {
            Ok(_) => (
                told(
                    Stage::Response,
                    starting(&files, index),
                    StepAction::Request { url: files[index].url },
                ),
                index,
            ),
            Err(why) => (
                failed(text::concat("Failed to create HTTP client: ", why.as_str())),
                index,
            ),
        },
        (Stage::Response, StepEvent::Responded(response)) => match response {
            Response::Accepted { length } => {
                let total: u64 = match length {
                    Some(n) => n,
                    None => 0,
                };
                (silent(Stage::File { total }, StepAction::CreateFile { name }), index)
            },
            Response::Refused { status } => (
                failed(say("Failed to download ", name, ": HTTP ", status.as_str())),
                index,
            ),
            Response::Failed(why) => (
                failed(say("Failed to download ", name, ": ", why.as_str())),
                index,
            ),
        },
        (Stage::File { total }, StepEvent::FileCreated { result, now }) => match result {
            Ok(_) => (
                silent(
                    Stage::Reading {
                        transfer: Transfer { total, downloaded: 0, reported_at: now },
                    },
                    StepAction::ReadPiece,
                ),
                index,
            ),
            Err(why) => (
                failed(say("Failed to create file ", name, ": ", why.as_str())),
                index,
            ),
        },
        (Stage::Reading { transfer }, StepEvent::PieceRead(piece)) => match piece {
            Piece::Data { length } => (
                silent(Stage::Writing { transfer, length }, StepAction::WritePiece),
                index,
            ),
            Piece::Failed(why) => (
                failed(say("Download error for ", name, ": ", why.as_str())),
                index,
            ),
            Piece::End => (silent(Stage::Flushing { transfer }, StepAction::Flush), index),
        },
        (Stage::Writing { transfer, length }, StepEvent::PieceWritten { result, now }) => {
            match result {
                Ok(_) => {
                    let (after, is_due) = advance(transfer, length, now);
                    if is_due {
                        let progress = Progress {
                            file: Some(file),
                            status: ProgressStatus::Downloading,
                            bytes_downloaded: after.downloaded,
                            total_bytes: after.total,
                        };
                        (
                            told(
                                Stage::Reading { transfer: after },
                                Report::Progress(progress),
                                StepAction::ReadPiece,
                            ),
                            index,
                        )
                    } else {
                        (
                            silent(Stage::Reading { transfer: after }, StepAction::ReadPiece),
                            index,
                        )
                    }
                },
                Err(why) => (
                    failed(say("Failed to write to ", name, ": ", why.as_str())),
                    index,
                ),
            }
        },
        (Stage::Flushing { transfer }, StepEvent::Flushed(result)) => match result {
            Ok(_) => {
                let done = Report::Progress(
                    Progress {
                        file: Some(file),
                        status: ProgressStatus::Complete,
                        bytes_downloaded: transfer.downloaded,
                        total_bytes: transfer.total,
                    },
                );
                if index + 1 < files.len() {
                    let reports = vec![done, starting(&files, index + 1)];
                    assert(report_views(reports@) =~= seq![
                        done@,
                        starting_report(index as int + 1),
                    ]);
                    let action = StepAction::Request { url: files[index + 1].url };
                    (Step { stage: Stage::Response, reports, action }, index + 1)
                } else {
                    let reports = vec![
                        done,
                        Report::Complete("All model files downloaded successfully"),
                    ];
                    assert(report_views(reports@) =~= seq![
                        done@,
                        ReportView::Complete("All model files downloaded successfully"@),
                    ]);
                    (Step { stage: Stage::Over, reports, action: StepAction::Stop }, index)
                }
            },
            Err(why) => (failed(say("Failed to flush ", name, ": ", why.as_str())), index),
        },
        _ => (silent(Stage::Over, StepAction::Stop), index),
    }
}

// Laws.

/// The last of the reports of a step ends the download.
pub open spec fn ends(reports: Seq<ReportView>) -> bool {
    reports.len() > 0 && (reports.last() is Error || reports.last() is Complete)
}

/// A report among those of a step.
pub open spec fn reports_error(reports: Seq<ReportView>) -> bool {
    exists|i: int| 0 <= i < reports.len() && #[trigger] reports[i] is Error
}

/// A download of the runtime stops with a word on its outcome, and does not stop
/// without one; after an error nothing follows.
pub proof fn law_ort_download_ends_with_its_outcome(stage: Stage, url: &'static str, event: StepEvent)
    requires
        expects(stage, event),
    ensures
        ({
            let next = ort_step(stage, url, event);
            &&& next.action is Stop <==> next.stage is Over
            &&& next.stage is Over <==> ends(next.reports)
            &&& reports_error(next.reports) ==> next.stage is Over
        }),
{
}

/// A download of the model stops with a word on its outcome, and does not stop
/// without one; after an error nothing follows.
pub proof fn law_model_download_ends_with_its_outcome(stage: Stage, i: int, event: StepEvent)
    requires
        expects(stage, event),
        !(stage is Extracting),
        0 <= i < local::model_file_list().len(),
    ensures
        ({
            let next = model_step(stage, i, event).step;
            &&& next.action is Stop <==> next.stage is Over
            &&& next.stage is Over <==> ends(next.reports)
            &&& reports_error(next.reports) ==> next.stage is Over
        }),
{
}

/// Nothing happens any more in a download that is over.
pub proof fn law_end_of_a_download(event: StepEvent)
    ensures
        !expects(Stage::Over, event),
{
}

/// The model is complete only when its last file is.
pub proof fn law_model_is_complete_with_its_last_file(stage: Stage, i: int, event: StepEvent)
    requires
        expects(stage, event),
        !(stage is Extracting),
        0 <= i < local::model_file_list().len(),
        model_step(stage, i, event).step.reports.len() > 0,
        model_step(stage, i, event).step.reports.last() is Complete,
    ensures
        i == local::model_file_list().len() - 1,
        stage is Flushing,
{
}

/// The files of the model are fetched in order: a step stays at its file or goes on
/// to the next.
pub proof fn law_files_come_in_order(stage: Stage, i: int, event: StepEvent)
    requires
        expects(stage, event),
        !(stage is Extracting),
        0 <= i < local::model_file_list().len(),
    ensures
        model_step(stage, i, event).index == i || (model_step(stage, i, event).index == i + 1
            && stage is Flushing),
{
}

/// Two reports on the progress of a transfer lie at least as far apart as they
/// should.
pub proof fn law_reports_lie_apart(t: Transfer, length: u64, now: u64, later: u64)
    requires
        due(t, now),
        due(advanced(t, length, now), later),
    ensures
        later - now >= REPORT_INTERVAL,
{
}

/// A transfer after pieces were written, each with its length and its time.
pub open spec fn transferred(t: Transfer, pieces: Seq<(u64, u64)>) -> Transfer
    decreases pieces.len(),
{
    if pieces.len() == 0 {
        t
    } else {
        advanced(transferred(t, pieces.drop_last()), pieces.last().0, pieces.last().1)
    }
}

/// The lengths of pieces together.
pub open spec fn lengths(pieces: Seq<(u64, u64)>) -> nat
    decreases pieces.len(),
{
    if pieces.len() == 0 {
        0
    } else {
        lengths(pieces.drop_last()) + pieces.last().0 as nat
    }
}

/// The bytes that a transfer reports are those of the pieces written.
pub proof fn law_bytes_add_up(total: u64, start: u64, pieces: Seq<(u64, u64)>)
    requires
        lengths(pieces) <= u64::MAX,
    ensures
        transferred(begun(total, start), pieces).downloaded == lengths(pieces),
        transferred(begun(total, start), pieces).total == total,
    decreases pieces.len(),
{
    if pieces.len() > 0 {
        law_bytes_add_up(total, start, pieces.drop_last());
    }
}

// Whole downloads.

/// What a download has come to: what it waits for, the file it is at, and
/// everything it has reported.
pub struct RunView {
    pub stage: Stage,
    pub index: int,
    pub reports: Seq<ReportView>,
}

/// A report on the outcome of a download.
pub open spec fn is_outcome(r: ReportView) -> bool {
    r is Error || r is Complete
}

/// The text of an address, if there is one.
pub open spec fn url_text(url: Option<&'static str>) -> Option<Seq<char>> {
    match url {
        Some(u) => Some(u@),
        None => None,
    }
}

/// A download of the runtime after the events.
pub open spec fn ort_run(url: Option<&'static str>, events: Seq<StepEvent>) -> RunView
    decreases events.len(),
{
    if events.len() == 0 {
        let begin = ort_beginning(url_text(url));
        RunView { stage: begin.stage, index: 0, reports: begin.reports }
    } else {
        let before = ort_run(url, events.drop_last());
        let next = ort_step(before.stage, url->0, events.last());
        RunView { stage: next.stage, index: 0, reports: before.reports + next.reports }
    }
}

/// Each of the events answers what the download of the runtime waits for.
pub open spec fn ort_answered(url: Option<&'static str>, events: Seq<StepEvent>) -> bool
    decreases events.len(),
{
    events.len() > 0 ==> {
        &&& ort_answered(url, events.drop_last())
        &&& expects(ort_run(url, events.drop_last()).stage, events.last())
    }
}

/// A download of the model after the events.
pub open spec fn model_run(events: Seq<StepEvent>) -> RunView
    decreases events.len(),
{
    if events.len() == 0 {
        RunView { stage: Stage::Directory, index: 0, reports: seq![] }
    } else {
        let before = model_run(events.drop_last());
        let next = model_step(before.stage, before.index, events.last());
        RunView {
            stage: next.step.stage,
            index: next.index,
            reports: before.reports + next.step.reports,
        }
    }
}

/// Each of the events answers what the download of the model waits for.
pub open spec fn model_answered(events: Seq<StepEvent>) -> bool
    decreases events.len(),
{
    events.len() > 0 ==> {
        &&& model_answered(events.drop_last())
        &&& expects(model_run(events.drop_last()).stage, events.last())
    }
}

/// The files that were reported as complete, in order.
pub open spec fn completed_files(reports: Seq<ReportView>) -> Seq<FileRef>
    decreases reports.len(),
{
    if reports.len() == 0 {
        seq![]
    } else {
        let before = completed_files(reports.drop_last());
        match reports.last() {
            ReportView::Progress(p) => match p.file {
                Some(file) => if p.status == ProgressStatus::Complete {
                    before.push(file)
                } else {
                    before
                },
                None => before,
            },
            _ => before,
        }
    }
}

/// The first files of the model.
pub open spec fn first_files(n: nat) -> Seq<FileRef> {
    Seq::new(n, |i: int| model_file_ref(i))
}

/// One report on the outcome at most, and none before the last one.
pub open spec fn outcome_comes_last(run: RunView) -> bool {
    &&& forall|i: int| 0 <= i < run.reports.len() - 1 ==> !is_outcome(#[trigger] run.reports[i])
    &&& run.stage is Over <==> run.reports.len() > 0 && is_outcome(run.reports.last())
}

/// A download of the runtime reports its outcome once, as its last word, and is over
/// then and not before. It is a success only once the library is extracted.
pub proof fn law_ort_download_reports_one_outcome(
    url: Option<&'static str>,
    events: Seq<StepEvent>,
)
    requires
        ort_answered(url, events),
    ensures
        outcome_comes_last(ort_run(url, events)),
        ort_run(url, events).stage is Over && ort_run(url, events).reports.last() is Complete ==> {
            &&& events.len() > 0
            &&& events.last() == StepEvent::Extracted(Extraction::Done)
        },
    decreases events.len(),
{
    if events.len() > 0 {
        let before = ort_run(url, events.drop_last());
        law_ort_download_reports_one_outcome(url, events.drop_last());
        let next = ort_step(before.stage, url->0, events.last());
        let run = ort_run(url, events);
        assert(next.reports.len() <= 1);
        assert(!(before.stage is Over));
        assert forall|i: int| 0 <= i < run.reports.len() - 1 implies !is_outcome(
            #[trigger] run.reports[i],
        ) by {
            assert(run.reports[i] == before.reports[i]);
        }
        if next.reports.len() > 0 {
            assert(run.reports.last() == next.reports[0]);
        } else {
            assert(run.reports =~= before.reports);
        }
    }
}

/// A download of the model reports its outcome once, as its last word, and is over
/// then and not before. The files are reported as complete one after the other, and
/// the download is a success only after all of them. Nothing is extracted.
pub proof fn law_model_download_reports_one_outcome(events: Seq<StepEvent>)
    requires
        model_answered(events),
    ensures
        outcome_comes_last(model_run(events)),
        !(model_run(events).stage is Extracting),
        0 <= model_run(events).index < local::model_file_list().len(),
        ({
            let run = model_run(events);
            completed_files(run.reports) == if run.stage is Over && run.reports.last() is Complete {
                first_files(local::model_file_list().len())
            } else {
                first_files(run.index as nat)
            }
        }),
    decreases events.len(),
{
    if events.len() == 0 {
        assert(completed_files(seq![]) =~= first_files(0));
    } else {
        let before = model_run(events.drop_last());
        law_model_download_reports_one_outcome(events.drop_last());
        let next = model_step(before.stage, before.index, events.last());
        let run = model_run(events);
        let more = next.step.reports;
        assert(more.len() <= 2);
        if more.len() == 0 {
            assert(run.reports =~= before.reports);
        } else if more.len() == 1 {
            assert(run.reports.drop_last() =~= before.reports);
            assert(run.reports.last() == more[0]);
        } else {
            let middle = before.reports.push(more[0]);
            assert(run.reports.drop_last() =~= middle);
            assert(run.reports.last() == more[1]);
            assert(middle.drop_last() =~= before.reports);
            assert(completed_files(middle) =~= first_files((before.index + 1) as nat));
            assert(completed_files(run.reports) =~= completed_files(middle));
        }
        assert forall|i: int| 0 <= i < run.reports.len() - 1 implies !is_outcome(
            #[trigger] run.reports[i],
        ) by {
            if i < before.reports.len() {
                assert(run.reports[i] == before.reports[i]);
            } else {
                assert(run.reports[i] == more[0]);
            }
        }
    }
}

} // verus!
