use crate::limiter::{
    elapsed_between, elapsed_since, sample_due, speed_of, speed_sample, throttle_delay,
    throttle_nanos, window_over, NANOS_PER_SECOND, SAMPLE_NANOS,
};
use crate::model::{DownloadKind, DownloadStatus, Record};
use crate::protocol::{
    accepts_ranges, check_response, range_header, range_value, resumable, total_bytes_from,
    total_size, verdict_of, ResponseHead, ResponseVerdict,
};
use crate::registry::{
    distinct_ids, lemma_updated, lookup, updated, Change, DownloadManager, RecordChange,
};
use crate::text::opt_text;
use crate::handles::CancelWatch;
use tokio_util::sync::CancellationToken;
use vstd::prelude::*;

verus! {

/// What a worker waits for.
#[derive(Clone, Copy, Debug, PartialEq, Eq, Structural)]
pub enum WorkerPhase {
    /// For the directory of the target file to be there.
    PreparingDirectory,
    /// For the length of the partial file.
    ProbingTemp,
    /// For the head of the response.
    Requesting,
    /// For the partial file to be open.
    OpeningTemp,
    /// For the next chunk of the body.
    Streaming,
    /// For the end of a pause that the rate limit asked for.
    Throttled,
    /// For the chunk at hand to be written.
    Writing,
    /// For the partial file to be flushed.
    Flushing,
    /// For the directory of the target file to be there, before the rename.
    Finalizing,
    /// For the partial file to be renamed.
    Renaming,
    /// For nothing: the attempt is over.
    Done,
}

/// What happened outside since the worker's last request.
#[derive(Debug)]
pub enum WorkerEvent {
    /// What was asked for has been done.
    Succeeded,
    /// What was asked for failed.
    Failed { reason: String },
    /// The partial file holds this many bytes; zero where there is none.
    TempLength { bytes: u64 },
    /// The server answered.
    Response { head: ResponseHead },
    /// A chunk of the body has arrived.
    Chunk { len: u64 },
    /// The body is complete.
    StreamEnded,
}

/// What a worker asks to be done outside.
#[derive(Debug)]
pub enum WorkerAction {
    /// Create the directory that holds `save_path`, where it is missing.
    PrepareDirectory { save_path: String },
    /// Report the length of the file at `temp_path`.
    ProbeTemp { temp_path: String },
    /// Send a GET request for `url`, with the `Range` header where one is given.
    SendRequest { url: String, range: Option<String> },
    /// Open the file at `temp_path`: to append, or else to write from its start.
    OpenTemp { temp_path: String, append: bool },
    /// Wait for the next chunk of the body.
    ReadChunk,
    /// Wait for this long, then go on.
    Sleep { nanos: u64 },
    /// Write the chunk at hand to the partial file.
    WriteChunk,
    /// Flush the partial file.
    Flush,
    /// Rename the partial file to the target file.
    Rename { from: String, to: String },
    /// Tell observers that the transfer `id` is complete; the attempt is over.
    Announce { id: String },
    /// Nothing: the attempt is over.
    Stop,
}

/// Mathematical value of a [`WorkerAction`].
pub ghost enum Action {
    PrepareDirectory { save_path: Seq<char> },
    ProbeTemp { temp_path: Seq<char> },
    SendRequest { url: Seq<char>, range: Option<Seq<char>> },
    OpenTemp { temp_path: Seq<char>, append: bool },
    ReadChunk,
    Sleep { nanos: u64 },
    WriteChunk,
    Flush,
    Rename { from: Seq<char>, to: Seq<char> },
    Announce { id: Seq<char> },
    Stop,
}

impl View for WorkerAction {
    type V = Action;

    open spec fn view(&self) -> Action {
        match *self {
            WorkerAction::PrepareDirectory { save_path } => Action::PrepareDirectory {
                save_path: save_path@,
            },
            WorkerAction::ProbeTemp { temp_path } => Action::ProbeTemp { temp_path: temp_path@ },
            WorkerAction::SendRequest { url, range } => Action::SendRequest {
                url: url@,
                range: opt_text(range),
            },
            WorkerAction::OpenTemp { temp_path, append } => Action::OpenTemp {
                temp_path: temp_path@,
                append,
            },
            WorkerAction::ReadChunk => Action::ReadChunk,
            WorkerAction::Sleep { nanos } => Action::Sleep { nanos },
            WorkerAction::WriteChunk => Action::WriteChunk,
            WorkerAction::Flush => Action::Flush,
            WorkerAction::Rename { from, to } => Action::Rename { from: from@, to: to@ },
            WorkerAction::Announce { id } => Action::Announce { id: id@ },
            WorkerAction::Stop => Action::Stop,
        }
    }
}

/// One attempt at one transfer: what it has learned and what it waits for.
pub struct Worker {
    id: String,
    url: String,
    save_path: String,
    temp_path: String,
    phase: WorkerPhase,
    recorded: u64,
    downloaded: u64,
    last_bytes: u64,
    last_tick: u64,
    window_start: u64,
    window_bytes: u64,
    chunk_len: u64,
    cancel: CancelWatch,
}

/// Mathematical value of a [`Worker`].
pub ghost struct WorkerState {
    pub id: Seq<char>,
    pub url: Seq<char>,
    pub save_path: Seq<char>,
    pub temp_path: Seq<char>,
    pub phase: WorkerPhase,
    /// Bytes that the record held when the attempt began.
    pub recorded: u64,
    /// Bytes in the partial file, as far as the attempt knows.
    pub downloaded: u64,
    /// Bytes in the partial file at the last speed sample.
    pub last_bytes: u64,
    /// Time of the last speed sample.
    pub last_tick: u64,
    /// Time at which the current rate window began.
    pub window_start: u64,
    /// Bytes taken in the current rate window.
    pub window_bytes: u64,
    /// Length of the chunk at hand.
    pub chunk_len: u64,
    /// The transfer's handle as it was when the attempt began; the worker asks a copy
    /// of it.
    pub handle: CancellationToken,
}

/// A worker's state, the records and the worker's request after one event.
pub ghost struct Step {
    pub worker: WorkerState,
    pub records: Seq<Record>,
    pub action: Action,
}

/// What holds of every worker state: no bytes are counted before the partial file has
/// been measured, the counters of a window and of a sample are within the bytes
/// counted, and a chunk at hand fits on top of them.
pub open spec fn worker_wf(w: WorkerState) -> bool {
    &&& (w.phase == WorkerPhase::PreparingDirectory || w.phase == WorkerPhase::ProbingTemp)
        ==> w.downloaded == 0
    &&& w.window_bytes <= w.downloaded
    &&& w.last_bytes <= w.downloaded
    &&& (w.phase == WorkerPhase::Throttled || w.phase == WorkerPhase::Writing) ==> w.downloaded
        + w.chunk_len <= u64::MAX
}

/// Whether the worker can take the event: a chunk must fit on top of the bytes counted.
pub open spec fn event_fits(w: WorkerState, event: WorkerEvent) -> bool {
    match event {
        WorkerEvent::Chunk { len } => w.downloaded + len <= u64::MAX,
        _ => true,
    }
}

/// The bytes to go on from, given the bytes recorded and the bytes on disk: the disk
/// is trusted.
pub open spec fn reconciled(recorded: u64, on_disk: u64) -> u64 {
    let most = if recorded >= on_disk {
        recorded
    } else {
        on_disk
    };
    if most > on_disk {
        on_disk
    } else {
        most
    }
}

/// Whatever the record said, the attempt goes on from the bytes that are on disk.
pub proof fn lemma_reconciled_trusts_disk(recorded: u64, on_disk: u64)
    ensures
        reconciled(recorded, on_disk) == on_disk,
{
}

/// The attempt ends without a word to the record.
pub open spec fn stopped(w: WorkerState, rs: Seq<Record>) -> Step {
    Step { worker: WorkerState { phase: WorkerPhase::Done, ..w }, records: rs, action: Action::Stop }
}

/// The attempt ends and the record is marked failed for `reason`.
pub open spec fn failed(w: WorkerState, rs: Seq<Record>, reason: Seq<char>, now: i64) -> Step {
    stopped(w, updated(rs, w.id, Change::Failed { reason }, now))
}

/// The attempt ends and the record is marked failed for `reason`, with resumption
/// switched off.
pub open spec fn failed_no_resume(
    w: WorkerState,
    rs: Seq<Record>,
    reason: Seq<char>,
    now: i64,
) -> Step {
    stopped(w, updated(rs, w.id, Change::FailedNoResume { reason }, now))
}

/// The state with a new rate window begun at `clock`, where the current one is over.
pub open spec fn window_settled(w: WorkerState, clock: u64) -> WorkerState {
    if window_over(elapsed_between(w.window_start, clock)) {
        WorkerState { window_start: clock, window_bytes: 0, ..w }
    } else {
        w
    }
}

/// The worker and its first request for the transfer `id`, `handles` being the handles
/// of the transfers `rs`; none where the transfer is gone or is not an HTTP transfer.
/// The worker watches the handle that the transfer has at that time.
pub open spec fn started(rs: Seq<Record>, handles: Seq<CancellationToken>, id: Seq<char>) -> Option<
    (WorkerState, Action),
> {
    match lookup(rs, id) {
        Some(r) => if r.kind == DownloadKind::Http {
            Some(
                (
                    WorkerState {
                        id,
                        url: r.url,
                        save_path: r.save_path,
                        temp_path: r.temp_path,
                        phase: WorkerPhase::PreparingDirectory,
                        recorded: r.downloaded_bytes,
                        downloaded: 0,
                        last_bytes: 0,
                        last_tick: 0,
                        window_start: 0,
                        window_bytes: 0,
                        chunk_len: 0,
                        handle: handles[crate::registry::position_of(rs, id)],
                    },
                    Action::PrepareDirectory { save_path: r.save_path },
                ),
            )
        } else {
            None
        },
        None => None,
    }
}

/// After the directory was prepared: the record runs and the partial file is measured.
pub open spec fn after_directory(w: WorkerState, rs: Seq<Record>, event: WorkerEvent, now: i64) -> Step {
    match event {
        WorkerEvent::Succeeded => Step {
            worker: WorkerState { phase: WorkerPhase::ProbingTemp, ..w },
            records: updated(rs, w.id, Change::Running, now),
            action: Action::ProbeTemp { temp_path: w.temp_path },
        },
        WorkerEvent::Failed { reason } => failed(
            w,
            rs,
            "Unable to create download directory"@,
            now,
        ),
        _ => stopped(w, rs),
    }
}

/// After the partial file was measured: the request goes out, for the rest of the file
/// where a part is there.
pub open spec fn after_probe(w: WorkerState, rs: Seq<Record>, event: WorkerEvent) -> Step {
    match event {
        WorkerEvent::TempLength { bytes } => Step {
            worker: WorkerState {
                phase: WorkerPhase::Requesting,
                downloaded: reconciled(w.recorded, bytes),
                ..w
            },
            records: rs,
            action: Action::SendRequest {
                url: w.url,
                range: range_value(reconciled(w.recorded, bytes)),
            },
        },
        _ => stopped(w, rs),
    }
}

/// After the server answered, or could not be reached.
pub open spec fn after_request(w: WorkerState, rs: Seq<Record>, event: WorkerEvent, now: i64) -> Step {
    match event {
        WorkerEvent::Failed { reason } => failed(w, rs, "Request failed: "@ + reason@, now),
        WorkerEvent::Response { head } => match verdict_of(head.status, w.downloaded > 0) {
            ResponseVerdict::RangeNotSatisfiable => failed_no_resume(
                w,
                rs,
                "Range not satisfiable. Restart the download."@,
                now,
            ),
            ResponseVerdict::ResumeRefused => failed_no_resume(
                w,
                rs,
                "Server does not support resume"@,
                now,
            ),
            ResponseVerdict::Rejected => failed(
                w,
                rs,
                "Download failed: "@ + head.status_text@,
                now,
            ),
            ResponseVerdict::Accepted => Step {
                worker: WorkerState { phase: WorkerPhase::OpeningTemp, ..w },
                records: updated(
                    rs,
                    w.id,
                    Change::Sizes {
                        total_bytes: total_size(opt_text(head.content_length), w.downloaded),
                        resume_supported: resumable(
                            opt_text(head.accept_ranges),
                            w.downloaded > 0,
                        ),
                    },
                    now,
                ),
                action: Action::OpenTemp { temp_path: w.temp_path, append: w.downloaded > 0 },
            },
        },
        _ => stopped(w, rs),
    }
}

/// After the partial file was opened: the clocks of the rate window and of the speed
/// sample start, and the first chunk is awaited.
pub open spec fn after_open(
    w: WorkerState,
    rs: Seq<Record>,
    event: WorkerEvent,
    clock: u64,
    now: i64,
) -> Step {
    match event {
        WorkerEvent::Succeeded => Step {
            worker: WorkerState {
                phase: WorkerPhase::Streaming,
                last_tick: clock,
                last_bytes: w.downloaded,
                window_start: clock,
                window_bytes: 0,
                ..w
            },
            records: rs,
            action: Action::ReadChunk,
        },
        WorkerEvent::Failed { reason } => failed(w, rs, "Unable to write file: "@ + reason@, now),
        _ => stopped(w, rs),
    }
}

/// After the body yielded a chunk, an error or its end. A chunk or an error is looked
/// at only if the handle is not tripped; the end of the body is taken in any case.
pub open spec fn after_read(
    w: WorkerState,
    rs: Seq<Record>,
    limit: u64,
    event: WorkerEvent,
    tripped: bool,
    clock: u64,
    now: i64,
) -> Step {
    match event {
        WorkerEvent::StreamEnded => Step {
            worker: WorkerState { phase: WorkerPhase::Flushing, ..w },
            records: rs,
            action: Action::Flush,
        },
        WorkerEvent::Failed { reason } => if tripped {
            stopped(w, updated(rs, w.id, Change::PausedUnlessCanceled, now))
        } else {
            failed(w, rs, "Stream error: "@ + reason@, now)
        },
        WorkerEvent::Chunk { len } => if tripped {
            stopped(w, updated(rs, w.id, Change::PausedUnlessCanceled, now))
        } else {
            let delay = throttle_nanos(
                limit,
                w.window_bytes,
                len,
                elapsed_between(w.window_start, clock),
            );
            if delay > 0 {
                Step {
                    worker: WorkerState { phase: WorkerPhase::Throttled, chunk_len: len, ..w },
                    records: rs,
                    action: Action::Sleep { nanos: delay },
                }
            } else {
                let taken = WorkerState { phase: WorkerPhase::Writing, chunk_len: len, ..w };
                Step {
                    worker: if limit > 0 {
                        window_settled(taken, clock)
                    } else {
                        taken
                    },
                    records: rs,
                    action: Action::WriteChunk,
                }
            }
        },
        _ => stopped(w, rs),
    }
}

/// After the pause that the rate limit asked for.
pub open spec fn after_sleep(w: WorkerState, rs: Seq<Record>, event: WorkerEvent, clock: u64) -> Step {
    match event {
        WorkerEvent::Succeeded => Step {
            worker: window_settled(WorkerState { phase: WorkerPhase::Writing, ..w }, clock),
            records: rs,
            action: Action::WriteChunk,
        },
        _ => stopped(w, rs),
    }
}

/// After the chunk at hand was written: it is counted, and progress and speed are
/// published where a sample is due.
pub open spec fn after_write(
    w: WorkerState,
    rs: Seq<Record>,
    event: WorkerEvent,
    clock: u64,
    now: i64,
) -> Step {
    match event {
        WorkerEvent::Succeeded => {
            let downloaded = (w.downloaded + w.chunk_len) as u64;
            let counted = WorkerState {
                phase: WorkerPhase::Streaming,
                downloaded,
                window_bytes: (w.window_bytes + w.chunk_len) as u64,
                ..w
            };
            let since = elapsed_between(w.last_tick, clock);
            if sample_due(since) {
                Step {
                    worker: WorkerState { last_tick: clock, last_bytes: downloaded, ..counted },
                    records: updated(
                        rs,
                        w.id,
                        Change::Progress {
                            downloaded_bytes: downloaded,
                            speed_bps: speed_of((downloaded - w.last_bytes) as u64, since),
                        },
                        now,
                    ),
                    action: Action::ReadChunk,
                }
            } else {
                Step { worker: counted, records: rs, action: Action::ReadChunk }
            }
        },
        WorkerEvent::Failed { reason } => failed(w, rs, "Write error: "@ + reason@, now),
        _ => stopped(w, rs),
    }
}

/// After the partial file was flushed: the bytes counted are published.
pub open spec fn after_flush(w: WorkerState, rs: Seq<Record>, event: WorkerEvent, now: i64) -> Step {
    match event {
        WorkerEvent::Succeeded => Step {
            worker: WorkerState { phase: WorkerPhase::Finalizing, ..w },
            records: updated(rs, w.id, Change::Downloaded { downloaded_bytes: w.downloaded }, now),
            action: Action::PrepareDirectory { save_path: w.save_path },
        },
        WorkerEvent::Failed { reason } => failed(w, rs, "Flush error: "@ + reason@, now),
        _ => stopped(w, rs),
    }
}

/// After the target directory was prepared once more.
pub open spec fn after_final_directory(
    w: WorkerState,
    rs: Seq<Record>,
    event: WorkerEvent,
    now: i64,
) -> Step {
    match event {
        WorkerEvent::Succeeded => Step {
            worker: WorkerState { phase: WorkerPhase::Renaming, ..w },
            records: rs,
            action: Action::Rename { from: w.temp_path, to: w.save_path },
        },
        WorkerEvent::Failed { reason } => failed(w, rs, "Unable to finalize download"@, now),
        _ => stopped(w, rs),
    }
}

/// After the rename: the record is completed and observers are told.
pub open spec fn after_rename(w: WorkerState, rs: Seq<Record>, event: WorkerEvent, now: i64) -> Step {
    match event {
        WorkerEvent::Succeeded => Step {
            worker: WorkerState { phase: WorkerPhase::Done, ..w },
            records: updated(rs, w.id, Change::Completed { downloaded_bytes: w.downloaded }, now),
            action: Action::Announce { id: w.id },
        },
        WorkerEvent::Failed { reason } => failed(w, rs, "Finalize error: "@ + reason@, now),
        _ => stopped(w, rs),
    }
}

/// What one event makes of a worker and of the records, and what the worker asks for
/// next. `limit` is the download cap in force, `tripped` tells whether the worker's
/// handle is tripped, `clock` is a time in nanoseconds that does not run backwards and
/// `now` the time of day in milliseconds. An event that the worker does not wait for
/// ends the attempt.
pub open spec fn step_of(
    w: WorkerState,
    rs: Seq<Record>,
    limit: u64,
    event: WorkerEvent,
    tripped: bool,
    clock: u64,
    now: i64,
) -> Step {
    match w.phase {
        WorkerPhase::PreparingDirectory => after_directory(w, rs, event, now),
        WorkerPhase::ProbingTemp => after_probe(w, rs, event),
        WorkerPhase::Requesting => after_request(w, rs, event, now),
        WorkerPhase::OpeningTemp => after_open(w, rs, event, clock, now),
        WorkerPhase::Streaming => after_read(w, rs, limit, event, tripped, clock, now),
        WorkerPhase::Throttled => after_sleep(w, rs, event, clock),
        WorkerPhase::Writing => after_write(w, rs, event, clock, now),
        WorkerPhase::Flushing => after_flush(w, rs, event, now),
        WorkerPhase::Finalizing => after_final_directory(w, rs, event, now),
        WorkerPhase::Renaming => after_rename(w, rs, event, now),
        WorkerPhase::Done => stopped(w, rs),
    }
}

/// Along an attempt the count of bytes received never goes down, and the worker's state
/// stays well-formed.
pub proof fn lemma_downloaded_never_decreases(
    w: WorkerState,
    rs: Seq<Record>,
    limit: u64,
    event: WorkerEvent,
    tripped: bool,
    clock: u64,
    now: i64,
)
    requires
        worker_wf(w),
        event_fits(w, event),
    ensures
        step_of(w, rs, limit, event, tripped, clock, now).worker.downloaded >= w.downloaded,
        worker_wf(step_of(w, rs, limit, event, tripped, clock, now).worker),
{
}

/// A worker touches the record of its own transfer only, and the byte count that it
/// publishes is its own count.
pub proof fn lemma_progress_is_own_count(
    w: WorkerState,
    rs: Seq<Record>,
    limit: u64,
    event: WorkerEvent,
    tripped: bool,
    clock: u64,
    now: i64,
)
    requires
        distinct_ids(rs),
        worker_wf(w),
        event_fits(w, event),
    ensures
        ({
            let step = step_of(w, rs, limit, event, tripped, clock, now);
            &&& distinct_ids(step.records)
            &&& step.records.len() == rs.len()
            &&& lookup(rs, w.id) is None ==> step.records == rs
            &&& lookup(rs, w.id) matches Some(before) ==> {
                &&& lookup(step.records, w.id) matches Some(after)
                &&& (after.downloaded_bytes == before.downloaded_bytes || after.downloaded_bytes
                    == step.worker.downloaded)
            }
        }),
{
    lemma_all_changes(rs, w.id, now);
}

/// An attempt asks for the bytes from the end of the partial file on, and appends a body
/// only where the server answered with partial content; a body that is written from
/// the start belongs to an empty partial file and a status from 200 to 299.
pub proof fn lemma_body_continues_the_partial_file(
    w: WorkerState,
    rs: Seq<Record>,
    on_disk: u64,
    head: ResponseHead,
    now: i64,
)
    ensures
        ({
            let asked = after_probe(w, rs, WorkerEvent::TempLength { bytes: on_disk });
            let answered = after_request(asked.worker, rs, WorkerEvent::Response { head }, now);
            &&& asked.worker.downloaded == on_disk
            &&& asked.action == (Action::SendRequest { url: w.url, range: range_value(on_disk) })
            &&& (range_value(on_disk) is Some <==> on_disk > 0)
            &&& answered.action is OpenTemp ==> {
                &&& answered.action == (Action::OpenTemp {
                    temp_path: w.temp_path,
                    append: on_disk > 0,
                })
                &&& answered.worker.downloaded == on_disk
                &&& 200 <= head.status < 300
                &&& on_disk > 0 ==> head.status == 206
            }
            &&& !(answered.action is OpenTemp) ==> answered.action == Action::Stop
        }),
{
}

/// Canceled wins over a worker: a step never makes a canceled transfer run or pause,
/// and a worker that sees its handle tripped when a chunk or an error arrives stops
/// there, with the transfer still canceled and the chunk not taken.
pub proof fn lemma_worker_keeps_canceled(
    w: WorkerState,
    rs: Seq<Record>,
    limit: u64,
    event: WorkerEvent,
    tripped: bool,
    clock: u64,
    now: i64,
)
    requires
        distinct_ids(rs),
        lookup(rs, w.id) matches Some(before) && before.status == DownloadStatus::Canceled,
    ensures
        ({
            let step = step_of(w, rs, limit, event, tripped, clock, now);
            &&& lookup(step.records, w.id) matches Some(after)
            &&& after.status != DownloadStatus::Running
            &&& after.status != DownloadStatus::Paused
            &&& after.status != DownloadStatus::Queued
            &&& tripped && w.phase == WorkerPhase::Streaming && !(event is StreamEnded) ==> {
                &&& after.status == DownloadStatus::Canceled
                &&& step.action == Action::Stop
                &&& step.worker.downloaded == w.downloaded
            }
        }),
{
    lemma_all_changes(rs, w.id, now);
}

/// A worker marks its transfer completed only when the rename of the partial file has
/// succeeded, and then asks for the announcement.
pub proof fn lemma_completed_after_rename(
    w: WorkerState,
    rs: Seq<Record>,
    limit: u64,
    event: WorkerEvent,
    tripped: bool,
    clock: u64,
    now: i64,
)
    requires
        distinct_ids(rs),
        worker_wf(w),
        event_fits(w, event),
        lookup(rs, w.id) matches Some(before) && before.status != DownloadStatus::Completed,
        lookup(step_of(w, rs, limit, event, tripped, clock, now).records, w.id) matches Some(after)
            && after.status == DownloadStatus::Completed,
    ensures
        w.phase == WorkerPhase::Renaming,
        event is Succeeded,
        step_of(w, rs, limit, event, tripped, clock, now).action == (Action::Announce { id: w.id }),
{
    lemma_all_changes(rs, w.id, now);
}

proof fn lemma_all_changes(rs: Seq<Record>, id: Seq<char>, now: i64)
    requires
        distinct_ids(rs),
    ensures
        forall|change: Change|
            {
                &&& distinct_ids(#[trigger] updated(rs, id, change, now))
                &&& updated(rs, id, change, now).len() == rs.len()
                &&& lookup(updated(rs, id, change, now), id) == match lookup(rs, id) {
                    Some(r) => Some(crate::registry::changed(r, change, now)),
                    None => None,
                }
            },
{
    assert forall|change: Change|
        {
            &&& distinct_ids(#[trigger] updated(rs, id, change, now))
            &&& updated(rs, id, change, now).len() == rs.len()
            &&& lookup(updated(rs, id, change, now), id) == match lookup(rs, id) {
                Some(r) => Some(crate::registry::changed(r, change, now)),
                None => None,
            }
        } by {
        lemma_updated(rs, id, change, now);
    }
}

/// Whether `step` consists of this worker state, these records and this request.
pub open spec fn is_step(step: Step, w: WorkerState, rs: Seq<Record>, action: Action) -> bool {
    step.worker == w && step.records == rs && step.action == action
}

impl View for Worker {
    type V = WorkerState;

    closed spec fn view(&self) -> WorkerState {
        WorkerState {
            id: self.id@,
            url: self.url@,
            save_path: self.save_path@,
            temp_path: self.temp_path@,
            phase: self.phase,
            recorded: self.recorded,
            downloaded: self.downloaded,
            last_bytes: self.last_bytes,
            last_tick: self.last_tick,
            window_start: self.window_start,
            window_bytes: self.window_bytes,
            chunk_len: self.chunk_len,
            handle: self.cancel.source(),
        }
    }
}

fn prefixed(prefix: &str, reason: &String) -> (r: String)
    ensures
        r@ == prefix@ + reason@,
{
    let mut r = prefix.to_owned();
    r.append(reason.as_str());
    r
}

impl Worker {
    /// Well-formedness, see [`worker_wf`].
    pub open spec fn wf(&self) -> bool {
        worker_wf(self@)
    }

    /// What the worker waits for.
    pub fn phase(&self) -> (r: WorkerPhase)
        ensures
            r == self@.phase,
    {
        self.phase
    }

    /// Bytes in the partial file, as far as the worker knows.
    pub fn downloaded(&self) -> (r: u64)
        ensures
            r == self@.downloaded,
    {
        self.downloaded
    }

    /// Whether a chunk of `len` bytes fits on top of the bytes counted.
    pub fn can_take(&self, len: u64) -> (r: bool)
        ensures
            r == (self@.downloaded + len <= u64::MAX),
    {
        len <= u64::MAX - self.downloaded
    }

    /// Sets up the attempt at the transfer `id` and says what to do first. There is no
    /// attempt where the transfer is gone or is not an HTTP transfer.
    pub fn start(manager: &DownloadManager, id: &str) -> (r: Option<(Worker, WorkerAction)>)
        requires
            manager.wf(),
        ensures
            match started(manager.records(), manager.handles(), id@) {
                Some((w, action)) => r is Some && r->Some_0.0@ == w && r->Some_0.1@ == action
                    && r->Some_0.0.wf(),
                None => r is None,
            },
    {
        let info = match manager.get(id) {
            Some(info) => info,
            None => { return None; },
        };
        if info.kind != DownloadKind::Http {
            return None;
        }
        let cancel = match manager.cancel_handle(id) {
            Some(cancel) => cancel,
            None => { return None; },
        };
        let action = WorkerAction::PrepareDirectory { save_path: info.save_path.clone() };
        let worker = Worker {
            id: id.to_owned(),
            url: info.url,
            save_path: info.save_path,
            temp_path: info.temp_path,
            phase: WorkerPhase::PreparingDirectory,
            recorded: info.downloaded_bytes,
            downloaded: 0,
            last_bytes: 0,
            last_tick: 0,
            window_start: 0,
            window_bytes: 0,
            chunk_len: 0,
            cancel,
        };
        Some((worker, action))
    }

    fn stop(&mut self) -> (action: WorkerAction)
        requires
            old(self).wf(),
        ensures
            final(self).wf(),
            final(self)@ == (WorkerState { phase: WorkerPhase::Done, ..old(self)@ }),
            action@ == Action::Stop,
    {
        self.phase = WorkerPhase::Done;
        WorkerAction::Stop
    }

    fn fail(&mut self, manager: &mut DownloadManager, reason: String, now: i64) -> (action:
        WorkerAction)
        requires
            old(self).wf(),
            old(manager).wf(),
        ensures
            final(self).wf(),
            final(manager).wf(),
            final(manager).limits() == old(manager).limits(),
            final(manager).handles() == old(manager).handles(),
            is_step(
                failed(old(self)@, old(manager).records(), reason@, now),
                final(self)@,
                final(manager).records(),
                action@,
            ),
    {
        manager.update(self.id.as_str(), RecordChange::Failed { reason }, now);
        self.stop()
    }

    fn fail_no_resume(&mut self, manager: &mut DownloadManager, reason: String, now: i64) -> (action:
        WorkerAction)
        requires
            old(self).wf(),
            old(manager).wf(),
        ensures
            final(self).wf(),
            final(manager).wf(),
            final(manager).limits() == old(manager).limits(),
            final(manager).handles() == old(manager).handles(),
            is_step(
                failed_no_resume(old(self)@, old(manager).records(), reason@, now),
                final(self)@,
                final(manager).records(),
                action@,
            ),
    {
        manager.update(self.id.as_str(), RecordChange::FailedNoResume { reason }, now);
        self.stop()
    }

    fn settle_window(&mut self, clock: u64)
        requires
            old(self).wf(),
        ensures
            final(self).wf(),
            final(self)@ == window_settled(old(self)@, clock),
    {
        if elapsed_since(self.window_start, clock) >= NANOS_PER_SECOND {
            self.window_start = clock;
            self.window_bytes = 0;
        }
    }

    fn on_directory(&mut self, manager: &mut DownloadManager, event: WorkerEvent, now: i64) -> (action:
        WorkerAction)
        requires
            old(self).wf(),
            old(manager).wf(),
            old(self)@.phase == WorkerPhase::PreparingDirectory,
        ensures
            final(self).wf(),
            final(manager).wf(),
            final(manager).limits() == old(manager).limits(),
            final(manager).handles() == old(manager).handles(),
            is_step(
                after_directory(old(self)@, old(manager).records(), event, now),
                final(self)@,
                final(manager).records(),
                action@,
            ),
    {
        match event {
            WorkerEvent::Succeeded => {
                manager.update(self.id.as_str(), RecordChange::Running, now);
                self.phase = WorkerPhase::ProbingTemp;
                WorkerAction::ProbeTemp { temp_path: self.temp_path.clone() }
            },
            WorkerEvent::Failed { reason } => self.fail(
                manager,
                "Unable to create download directory".to_owned(),
                now,
            ),
            _ => self.stop(),
        }
    }

    fn on_probe(&mut self, event: WorkerEvent) -> (action: WorkerAction)
        requires
            old(self).wf(),
            old(self)@.phase == WorkerPhase::ProbingTemp,
        ensures
            final(self).wf(),
            forall|rs: Seq<Record>| is_step(#[trigger] after_probe(old(self)@, rs, event), final(self)@, rs, action@),
    {
        match event {
            WorkerEvent::TempLength { bytes } => {
                let most = if self.recorded >= bytes {
                    self.recorded
                } else {
                    bytes
                };
                self.downloaded = if most > bytes {
                    bytes
                } else {
                    most
                };
                self.phase = WorkerPhase::Requesting;
                WorkerAction::SendRequest {
                    url: self.url.clone(),
                    range: range_header(self.downloaded),
                }
            },
            _ => self.stop(),
        }
    }

    fn on_response(&mut self, manager: &mut DownloadManager, event: WorkerEvent, now: i64) -> (action:
        WorkerAction)
        requires
            old(self).wf(),
            old(manager).wf(),
            old(self)@.phase == WorkerPhase::Requesting,
        ensures
            final(self).wf(),
            final(manager).wf(),
            final(manager).limits() == old(manager).limits(),
            final(manager).handles() == old(manager).handles(),
            is_step(
                after_request(old(self)@, old(manager).records(), event, now),
                final(self)@,
                final(manager).records(),
                action@,
            ),
    {
        match event {
            WorkerEvent::Failed { reason } => {
                let text = prefixed("Request failed: ", &reason);
                self.fail(manager, text, now)
            },
            WorkerEvent::Response { head } => {
                let resuming = self.downloaded > 0;
                match check_response(head.status, resuming) {
                    ResponseVerdict::RangeNotSatisfiable => self.fail_no_resume(
                        manager,
                        "Range not satisfiable. Restart the download.".to_owned(),
                        now,
                    ),
                    ResponseVerdict::ResumeRefused => self.fail_no_resume(
                        manager,
                        "Server does not support resume".to_owned(),
                        now,
                    ),
                    ResponseVerdict::Rejected => {
                        let text = prefixed("Download failed: ", &head.status_text);
                        self.fail(manager, text, now)
                    },
                    ResponseVerdict::Accepted => {
                        let total_bytes = total_bytes_from(&head.content_length, self.downloaded);
                        let resume_supported = accepts_ranges(&head.accept_ranges, resuming);
                        manager.update(
                            self.id.as_str(),
                            RecordChange::Sizes { total_bytes, resume_supported },
                            now,
                        );
                        self.phase = WorkerPhase::OpeningTemp;
                        WorkerAction::OpenTemp { temp_path: self.temp_path.clone(), append: resuming }
                    },
                }
            },
            _ => self.stop(),
        }
    }

    fn on_open(&mut self, manager: &mut DownloadManager, event: WorkerEvent, clock: u64, now: i64) -> (action:
        WorkerAction)
        requires
            old(self).wf(),
            old(manager).wf(),
            old(self)@.phase == WorkerPhase::OpeningTemp,
        ensures
            final(self).wf(),
            final(manager).wf(),
            final(manager).limits() == old(manager).limits(),
            final(manager).handles() == old(manager).handles(),
            is_step(
                after_open(old(self)@, old(manager).records(), event, clock, now),
                final(self)@,
                final(manager).records(),
                action@,
            ),
    {
        match event {
            WorkerEvent::Succeeded => {
                self.last_tick = clock;
                self.last_bytes = self.downloaded;
                self.window_start = clock;
                self.window_bytes = 0;
                self.phase = WorkerPhase::Streaming;
                WorkerAction::ReadChunk
            },
            WorkerEvent::Failed { reason } => {
                let text = prefixed("Unable to write file: ", &reason);
                self.fail(manager, text, now)
            },
            _ => self.stop(),
        }
    }

    fn on_read(
        &mut self,
        manager: &mut DownloadManager,
        event: WorkerEvent,
        tripped: bool,
        clock: u64,
        now: i64,
    ) -> (action: WorkerAction)
        requires
            old(self).wf(),
            old(manager).wf(),
            old(self)@.phase == WorkerPhase::Streaming,
            event_fits(old(self)@, event),
        ensures
            final(self).wf(),
            final(manager).wf(),
            final(manager).limits() == old(manager).limits(),
            final(manager).handles() == old(manager).handles(),
            is_step(
                after_read(
                    old(self)@,
                    old(manager).records(),
                    old(manager).limits().download_cap(),
                    event,
                    tripped,
                    clock,
                    now,
                ),
                final(self)@,
                final(manager).records(),
                action@,
            ),
    {
        match event {
            WorkerEvent::StreamEnded => {
                self.phase = WorkerPhase::Flushing;
                WorkerAction::Flush
            },
            WorkerEvent::Failed { reason } => {
                if tripped {
                    manager.update(self.id.as_str(), RecordChange::PausedUnlessCanceled, now);
                    self.stop()
                } else {
                    let text = prefixed("Stream error: ", &reason);
                    self.fail(manager, text, now)
                }
            },
            WorkerEvent::Chunk { len } => {
                if tripped {
                    manager.update(self.id.as_str(), RecordChange::PausedUnlessCanceled, now);
                    self.stop()
                } else {
                    let limit = manager.download_limit();
                    let delay = throttle_delay(
                        limit,
                        self.window_bytes,
                        len,
                        elapsed_since(self.window_start, clock),
                    );
                    self.chunk_len = len;
                    if delay > 0 {
                        self.phase = WorkerPhase::Throttled;
                        WorkerAction::Sleep { nanos: delay }
                    } else {
                        self.phase = WorkerPhase::Writing;
                        if limit > 0 {
                            self.settle_window(clock);
                        }
                        WorkerAction::WriteChunk
                    }
                }
            },
            _ => self.stop(),
        }
    }

    fn on_sleep(&mut self, event: WorkerEvent, clock: u64) -> (action: WorkerAction)
        requires
            old(self).wf(),
            old(self)@.phase == WorkerPhase::Throttled,
        ensures
            final(self).wf(),
            forall|rs: Seq<Record>| is_step(#[trigger] after_sleep(old(self)@, rs, event, clock), final(self)@, rs, action@),
    {
        match event {
            WorkerEvent::Succeeded => {
                self.phase = WorkerPhase::Writing;
                self.settle_window(clock);
                WorkerAction::WriteChunk
            },
            _ => self.stop(),
        }
    }

    fn on_write(&mut self, manager: &mut DownloadManager, event: WorkerEvent, clock: u64, now: i64) -> (action:
        WorkerAction)
        requires
            old(self).wf(),
            old(manager).wf(),
            old(self)@.phase == WorkerPhase::Writing,
        ensures
            final(self).wf(),
            final(manager).wf(),
            final(manager).limits() == old(manager).limits(),
            final(manager).handles() == old(manager).handles(),
            is_step(
                after_write(old(self)@, old(manager).records(), event, clock, now),
                final(self)@,
                final(manager).records(),
                action@,
            ),
    {
        match event {
            WorkerEvent::Succeeded => {
                self.downloaded = self.downloaded + self.chunk_len;
                self.window_bytes = self.window_bytes + self.chunk_len;
                self.phase = WorkerPhase::Streaming;
                let since = elapsed_since(self.last_tick, clock);
                if since >= SAMPLE_NANOS {
                    let speed_bps = speed_sample(self.downloaded - self.last_bytes, since);
                    self.last_tick = clock;
                    self.last_bytes = self.downloaded;
                    manager.update(
                        self.id.as_str(),
                        RecordChange::Progress { downloaded_bytes: self.downloaded, speed_bps },
                        now,
                    );
                }
                WorkerAction::ReadChunk
            },
            WorkerEvent::Failed { reason } => {
                let text = prefixed("Write error: ", &reason);
                self.fail(manager, text, now)
            },
            _ => self.stop(),
        }
    }

    fn on_flush(&mut self, manager: &mut DownloadManager, event: WorkerEvent, now: i64) -> (action:
        WorkerAction)
        requires
            old(self).wf(),
            old(manager).wf(),
            old(self)@.phase == WorkerPhase::Flushing,
        ensures
            final(self).wf(),
            final(manager).wf(),
            final(manager).limits() == old(manager).limits(),
            final(manager).handles() == old(manager).handles(),
            is_step(
                after_flush(old(self)@, old(manager).records(), event, now),
                final(self)@,
                final(manager).records(),
                action@,
            ),
    {
        match event {
            WorkerEvent::Succeeded => {
                manager.update(
                    self.id.as_str(),
                    RecordChange::Downloaded { downloaded_bytes: self.downloaded },
                    now,
                );
                self.phase = WorkerPhase::Finalizing;
                WorkerAction::PrepareDirectory { save_path: self.save_path.clone() }
            },
            WorkerEvent::Failed { reason } => {
                let text = prefixed("Flush error: ", &reason);
                self.fail(manager, text, now)
            },
            _ => self.stop(),
        }
    }

    fn on_final_directory(&mut self, manager: &mut DownloadManager, event: WorkerEvent, now: i64) -> (action:
        WorkerAction)
        requires
            old(self).wf(),
            old(manager).wf(),
            old(self)@.phase == WorkerPhase::Finalizing,
        ensures
            final(self).wf(),
            final(manager).wf(),
            final(manager).limits() == old(manager).limits(),
            final(manager).handles() == old(manager).handles(),
            is_step(
                after_final_directory(old(self)@, old(manager).records(), event, now),
                final(self)@,
                final(manager).records(),
                action@,
            ),
    {
        match event {
            WorkerEvent::Succeeded => {
                self.phase = WorkerPhase::Renaming;
                WorkerAction::Rename { from: self.temp_path.clone(), to: self.save_path.clone() }
            },
            WorkerEvent::Failed { reason } => self.fail(
                manager,
                "Unable to finalize download".to_owned(),
                now,
            ),
            _ => self.stop(),
        }
    }

    fn on_rename(&mut self, manager: &mut DownloadManager, event: WorkerEvent, now: i64) -> (action:
        WorkerAction)
        requires
            old(self).wf(),
            old(manager).wf(),
            old(self)@.phase == WorkerPhase::Renaming,
        ensures
            final(self).wf(),
            final(manager).wf(),
            final(manager).limits() == old(manager).limits(),
            final(manager).handles() == old(manager).handles(),
            is_step(
                after_rename(old(self)@, old(manager).records(), event, now),
                final(self)@,
                final(manager).records(),
                action@,
            ),
    {
        match event {
            WorkerEvent::Succeeded => {
                manager.update(
                    self.id.as_str(),
                    RecordChange::Completed { downloaded_bytes: self.downloaded },
                    now,
                );
                self.phase = WorkerPhase::Done;
                WorkerAction::Announce { id: self.id.clone() }
            },
            WorkerEvent::Failed { reason } => {
                let text = prefixed("Finalize error: ", &reason);
                self.fail(manager, text, now)
            },
            _ => self.stop(),
        }
    }

    /// Takes one event, `tripped` telling whether the worker's handle is tripped:
    /// updates the worker and the record of its transfer and returns what to do next,
    /// all as [`step_of`] says.
    pub fn advance(
        &mut self,
        manager: &mut DownloadManager,
        event: WorkerEvent,
        tripped: bool,
        clock: u64,
        now: i64,
    ) -> (action: WorkerAction)
        requires
            old(self).wf(),
            old(manager).wf(),
            event_fits(old(self)@, event),
        ensures
            final(self).wf(),
            final(manager).wf(),
            final(manager).limits() == old(manager).limits(),
            final(manager).handles() == old(manager).handles(),
            is_step(
                step_of(
                    old(self)@,
                    old(manager).records(),
                    old(manager).limits().download_cap(),
                    event,
                    tripped,
                    clock,
                    now,
                ),
                final(self)@,
                final(manager).records(),
                action@,
            ),
    {
        match self.phase {
            WorkerPhase::PreparingDirectory => self.on_directory(manager, event, now),
            WorkerPhase::ProbingTemp => self.on_probe(event),
            WorkerPhase::Requesting => self.on_response(manager, event, now),
            WorkerPhase::OpeningTemp => self.on_open(manager, event, clock, now),
            WorkerPhase::Streaming => self.on_read(manager, event, tripped, clock, now),
            WorkerPhase::Throttled => self.on_sleep(event, clock),
            WorkerPhase::Writing => self.on_write(manager, event, clock, now),
            WorkerPhase::Flushing => self.on_flush(manager, event, now),
            WorkerPhase::Finalizing => self.on_final_directory(manager, event, now),
            WorkerPhase::Renaming => self.on_rename(manager, event, now),
            WorkerPhase::Done => self.stop(),
        }
    }

    /// Takes one event as [`Worker::advance`] does, after asking the worker's own
    /// handle whether it is tripped. A worker whose handle was tripped when the attempt
    /// began steps as tripped.
    pub fn step(&mut self, manager: &mut DownloadManager, event: WorkerEvent, clock: u64, now: i64) -> (action:
        WorkerAction)
        requires
            old(self).wf(),
            old(manager).wf(),
            event_fits(old(self)@, event),
        ensures
            final(self).wf(),
            final(manager).wf(),
            final(manager).limits() == old(manager).limits(),
            final(manager).handles() == old(manager).handles(),
            exists|tripped: bool|
                (crate::handles::tripped(old(self)@.handle) ==> tripped) && is_step(
                    #[trigger] step_of(
                        old(self)@,
                        old(manager).records(),
                        old(manager).limits().download_cap(),
                        event,
                        tripped,
                        clock,
                        now,
                    ),
                    final(self)@,
                    final(manager).records(),
                    action@,
                ),
    {
        let tripped = self.cancel.is_tripped();
        self.advance(manager, event, tripped, clock, now)
    }
}

} // verus!
