use crate::model::{DownloadInfo, DownloadKind, DownloadStatus, Record, SpeedLimits};
use crate::handles::{fresh_handle, trip, tripped, CancelWatch};
use tokio_util::sync::CancellationToken;
use vstd::prelude::*;

verus! {

/// A change that a worker makes to the record of its transfer.
#[derive(Debug)]
pub enum RecordChange {
    /// The attempt runs and the last error is forgotten, unless the transfer was
    /// canceled in the meantime.
    Running,
    /// The attempt failed for the given reason.
    Failed { reason: String },
    /// The attempt failed and the server is known not to resume.
    FailedNoResume { reason: String },
    /// What the response told about size and resumption.
    Sizes { total_bytes: Option<u64>, resume_supported: bool },
    /// The worker saw its handle tripped: paused, unless the transfer was canceled.
    PausedUnlessCanceled,
    /// Bytes received so far and the current rate.
    Progress { downloaded_bytes: u64, speed_bps: u64 },
    /// Bytes received so far.
    Downloaded { downloaded_bytes: u64 },
    /// The file is in place.
    Completed { downloaded_bytes: u64 },
}

/// Mathematical value of a [`RecordChange`].
pub ghost enum Change {
    Running,
    Failed { reason: Seq<char> },
    FailedNoResume { reason: Seq<char> },
    Sizes { total_bytes: Option<u64>, resume_supported: bool },
    PausedUnlessCanceled,
    Progress { downloaded_bytes: u64, speed_bps: u64 },
    Downloaded { downloaded_bytes: u64 },
    Completed { downloaded_bytes: u64 },
}

impl View for RecordChange {
    type V = Change;

    open spec fn view(&self) -> Change {
        match *self {
            RecordChange::Running => Change::Running,
            RecordChange::Failed { reason } => Change::Failed { reason: reason@ },
            RecordChange::FailedNoResume { reason } => Change::FailedNoResume { reason: reason@ },
            RecordChange::Sizes { total_bytes, resume_supported } => Change::Sizes {
                total_bytes,
                resume_supported,
            },
            RecordChange::PausedUnlessCanceled => Change::PausedUnlessCanceled,
            RecordChange::Progress { downloaded_bytes, speed_bps } => Change::Progress {
                downloaded_bytes,
                speed_bps,
            },
            RecordChange::Downloaded { downloaded_bytes } => Change::Downloaded {
                downloaded_bytes,
            },
            RecordChange::Completed { downloaded_bytes } => Change::Completed { downloaded_bytes },
        }
    }
}

/// No two records share an id.
pub open spec fn distinct_ids(rs: Seq<Record>) -> bool {
    forall|i: int, j: int| 0 <= i < j < rs.len() ==> rs[i].id != rs[j].id
}

/// Whether a record with this id is among `rs`.
pub open spec fn holds_id(rs: Seq<Record>, id: Seq<char>) -> bool {
    exists|i: int| 0 <= i < rs.len() && (#[trigger] rs[i]).id == id
}

/// Position of the record with this id.
pub open spec fn position_of(rs: Seq<Record>, id: Seq<char>) -> int {
    choose|i: int| 0 <= i < rs.len() && (#[trigger] rs[i]).id == id
}

/// The record with this id, if there is one.
pub open spec fn lookup(rs: Seq<Record>, id: Seq<char>) -> Option<Record> {
    if holds_id(rs, id) {
        Some(rs[position_of(rs, id)])
    } else {
        None
    }
}

/// `rs` with `r` in place of the record with this id; unchanged where there is none.
pub open spec fn with_record(rs: Seq<Record>, id: Seq<char>, r: Record) -> Seq<Record> {
    if holds_id(rs, id) {
        rs.update(position_of(rs, id), r)
    } else {
        rs
    }
}

/// `rs` with `r` added: in place of a record with the same id, else at the end.
pub open spec fn registered(rs: Seq<Record>, r: Record) -> Seq<Record> {
    if holds_id(rs, r.id) {
        rs.update(position_of(rs, r.id), r)
    } else {
        rs.push(r)
    }
}

/// `rs` without the record with this id.
pub open spec fn without_id(rs: Seq<Record>, id: Seq<char>) -> Seq<Record> {
    if holds_id(rs, id) {
        rs.remove(position_of(rs, id))
    } else {
        rs
    }
}

/// The stamp of a record that was last stamped at `last` and is touched at `now`: the
/// time of the touch, but never an earlier one than the last stamp, so that a clock
/// that was set back does not set stamps back.
pub open spec fn stamp(last: i64, now: i64) -> i64 {
    if now >= last {
        now
    } else {
        last
    }
}

/// Computes [`stamp`].
pub fn stamp_at(last: i64, now: i64) -> (r: i64)
    ensures
        r == stamp(last, now),
{
    if now >= last {
        now
    } else {
        last
    }
}

/// The record after a worker's change at time `now`.
pub open spec fn changed(r: Record, change: Change, now: i64) -> Record {
    let touched = Record { updated_at: stamp(r.updated_at, now), ..r };
    match change {
        Change::Running => if r.status == DownloadStatus::Canceled {
            touched
        } else {
            Record { status: DownloadStatus::Running, error: None, ..touched }
        },
        Change::Failed { reason } => Record {
            status: DownloadStatus::Failed,
            error: Some(reason),
            ..touched
        },
        Change::FailedNoResume { reason } => Record {
            status: DownloadStatus::Failed,
            error: Some(reason),
            resume_supported: false,
            ..touched
        },
        Change::Sizes { total_bytes, resume_supported } => Record {
            total_bytes,
            resume_supported,
            ..touched
        },
        Change::PausedUnlessCanceled => if r.status == DownloadStatus::Canceled {
            touched
        } else {
            Record { status: DownloadStatus::Paused, ..touched }
        },
        Change::Progress { downloaded_bytes, speed_bps } => Record {
            downloaded_bytes,
            speed_bps,
            ..touched
        },
        Change::Downloaded { downloaded_bytes } => Record { downloaded_bytes, ..touched },
        Change::Completed { downloaded_bytes } => Record {
            status: DownloadStatus::Completed,
            total_bytes: if r.total_bytes is Some {
                r.total_bytes
            } else {
                Some(downloaded_bytes)
            },
            speed_bps: 0,
            ..touched
        },
    }
}

/// The records after a worker's change to the transfer `id`; a transfer that is gone
/// is left gone.
pub open spec fn updated(rs: Seq<Record>, id: Seq<char>, change: Change, now: i64) -> Seq<Record> {
    match lookup(rs, id) {
        Some(r) => with_record(rs, id, changed(r, change, now)),
        None => rs,
    }
}

/// The record after a pause at time `now`: only a running transfer is paused.
pub open spec fn paused(r: Record, now: i64) -> Record {
    if r.status == DownloadStatus::Running {
        Record { status: DownloadStatus::Paused, updated_at: stamp(r.updated_at, now), ..r }
    } else {
        r
    }
}

/// Whether a cancel finds nothing to do: the transfer is completed or canceled already,
/// or it is carried out elsewhere and stays external.
pub open spec fn cancel_is_idle(r: Record) -> bool {
    r.status == DownloadStatus::Completed || r.status == DownloadStatus::Canceled || r.status
        == DownloadStatus::External
}

/// The record after a cancel at time `now`: a completed, canceled or external transfer
/// stays as it is.
pub open spec fn canceled(r: Record, now: i64) -> Record {
    if cancel_is_idle(r) {
        r
    } else {
        Record { status: DownloadStatus::Canceled, updated_at: stamp(r.updated_at, now), ..r }
    }
}

/// What a resume at time `now` makes of the record, or why it is refused.
pub open spec fn resumed(r: Record, now: i64) -> Result<Record, Seq<char>> {
    if r.kind != DownloadKind::Http {
        Err("Resume is only available for HTTP downloads."@)
    } else if r.status == DownloadStatus::Completed {
        Ok(r)
    } else if !r.resume_supported && r.downloaded_bytes > 0 {
        Err("Server does not support resume. Restart the download instead."@)
    } else {
        Ok(
            Record {
                status: DownloadStatus::Queued,
                error: None,
                updated_at: stamp(r.updated_at, now),
                ..r
            },
        )
    }
}

/// What a restart at time `now` makes of the record, or why it is refused.
pub open spec fn restarted(r: Record, now: i64) -> Result<Record, Seq<char>> {
    if r.kind != DownloadKind::Http {
        Err("Restart is only available for HTTP downloads."@)
    } else {
        Ok(
            Record {
                downloaded_bytes: 0,
                total_bytes: None,
                speed_bps: 0,
                status: DownloadStatus::Queued,
                error: None,
                updated_at: stamp(r.updated_at, now),
                ..r
            },
        )
    }
}

/// Whether a transfer in this state may be removed.
pub open spec fn removable(r: Record) -> bool {
    r.status != DownloadStatus::Running && r.status != DownloadStatus::Queued && r.status
        != DownloadStatus::Paused
}

/// What a pause of the transfer `id` returns.
pub open spec fn pause_outcome(rs: Seq<Record>, id: Seq<char>, now: i64) -> Result<
    Record,
    Seq<char>,
> {
    match lookup(rs, id) {
        Some(r) => Ok(paused(r, now)),
        None => Err("Download not found"@),
    }
}

/// What a cancel of the transfer `id` returns.
pub open spec fn cancel_outcome(rs: Seq<Record>, id: Seq<char>, now: i64) -> Result<
    Record,
    Seq<char>,
> {
    match lookup(rs, id) {
        Some(r) => Ok(canceled(r, now)),
        None => Err("Download not found"@),
    }
}

/// What a resume of the transfer `id` returns.
pub open spec fn resume_outcome(rs: Seq<Record>, id: Seq<char>, now: i64) -> Result<
    Record,
    Seq<char>,
> {
    match lookup(rs, id) {
        Some(r) => resumed(r, now),
        None => Err("Download not found"@),
    }
}

/// What a restart of the transfer `id` returns.
pub open spec fn restart_outcome(rs: Seq<Record>, id: Seq<char>, now: i64) -> Result<
    Record,
    Seq<char>,
> {
    match lookup(rs, id) {
        Some(r) => restarted(r, now),
        None => Err("Download not found"@),
    }
}

/// The records after a command on the transfer `id` with the given outcome: the new
/// record in place of the old one where it succeeded, no change where it failed.
pub open spec fn stored(rs: Seq<Record>, id: Seq<char>, outcome: Result<Record, Seq<char>>) -> Seq<
    Record,
> {
    match outcome {
        Ok(r) => with_record(rs, id, r),
        Err(_) => rs,
    }
}

/// What a removal of the transfer `id` returns.
pub open spec fn remove_outcome(rs: Seq<Record>, id: Seq<char>) -> Result<(), Seq<char>> {
    match lookup(rs, id) {
        Some(r) => if removable(r) {
            Ok(())
        } else {
            Err("Stop the download before removing it."@)
        },
        None => Err("Download not found"@),
    }
}

/// The records after a removal of the transfer `id`.
pub open spec fn after_remove(rs: Seq<Record>, id: Seq<char>) -> Seq<Record> {
    if remove_outcome(rs, id) is Ok {
        without_id(rs, id)
    } else {
        rs
    }
}

/// The mathematical value of a command's result.
pub open spec fn outcome_view(r: Result<DownloadInfo, String>) -> Result<Record, Seq<char>> {
    match r {
        Ok(info) => Ok(info@),
        Err(e) => Err(e@),
    }
}

/// The mathematical value of an optional record.
pub open spec fn opt_record(o: Option<DownloadInfo>) -> Option<Record> {
    match o {
        Some(info) => Some(info@),
        None => None,
    }
}

/// The mathematical values of a list of records.
pub open spec fn record_views(v: Seq<DownloadInfo>) -> Seq<Record> {
    v.map_values(|info: DownloadInfo| info@)
}

/// With distinct ids, the record with a given id stands at one position only.
pub proof fn lemma_position(rs: Seq<Record>, i: int)
    requires
        distinct_ids(rs),
        0 <= i < rs.len(),
    ensures
        holds_id(rs, rs[i].id),
        position_of(rs, rs[i].id) == i,
        lookup(rs, rs[i].id) == Some(rs[i]),
{
    let p = position_of(rs, rs[i].id);
    assert(0 <= p < rs.len() && rs[p].id == rs[i].id);
    if p < i {
        assert(rs[p].id != rs[i].id);
    } else if i < p {
        assert(rs[i].id != rs[p].id);
    }
}

/// A record put in place of one with the same id keeps the ids distinct.
pub proof fn lemma_with_record_distinct(rs: Seq<Record>, id: Seq<char>, r: Record)
    requires
        distinct_ids(rs),
        r.id == id,
    ensures
        distinct_ids(with_record(rs, id, r)),
        holds_id(rs, id) ==> lookup(with_record(rs, id, r), id) == Some(r),
        holds_id(with_record(rs, id, r), id) == holds_id(rs, id),
{
    if holds_id(rs, id) {
        let p = position_of(rs, id);
        let next = rs.update(p, r);
        assert(0 <= p < rs.len() && rs[p].id == id);
        assert forall|i: int, j: int| 0 <= i < j < next.len() implies next[i].id != next[j].id by {
            assert(rs[i].id != rs[j].id);
        }
        assert(next[p].id == id);
        lemma_position(next, p);
    }
}

/// After a removal no record carries the removed id.
pub proof fn lemma_without_id(rs: Seq<Record>, id: Seq<char>)
    requires
        distinct_ids(rs),
    ensures
        distinct_ids(without_id(rs, id)),
        !holds_id(without_id(rs, id), id),
        forall|other: Seq<char>|
            other != id ==> lookup(without_id(rs, id), other) == lookup(rs, other),
{
    if holds_id(rs, id) {
        let p = position_of(rs, id);
        let next = rs.remove(p);
        assert(0 <= p < rs.len() && rs[p].id == id);
        assert forall|i: int, j: int| 0 <= i < j < next.len() implies next[i].id != next[j].id by {
            let a = if i < p { i } else { i + 1 };
            let b = if j < p { j } else { j + 1 };
            assert(rs[a].id != rs[b].id);
        }
        assert forall|i: int| 0 <= i < next.len() implies (#[trigger] next[i]).id != id by {
            let a = if i < p { i } else { i + 1 };
            if a < p {
                assert(rs[a].id != rs[p].id);
            } else {
                assert(rs[p].id != rs[a].id);
            }
        }
        assert forall|other: Seq<char>| other != id implies lookup(next, other) == lookup(
            rs,
            other,
        ) by {
            if holds_id(rs, other) {
                let q = position_of(rs, other);
                assert(0 <= q < rs.len() && rs[q].id == other);
                let q2 = if q < p { q } else { q - 1 };
                assert(next[q2] == rs[q]);
                lemma_position(next, q2);
            } else if holds_id(next, other) {
                let q = position_of(next, other);
                assert(0 <= q < next.len() && next[q].id == other);
                let a = if q < p { q } else { q + 1 };
                assert(rs[a].id == other);
            }
        }
    } else {
        assert(without_id(rs, id) == rs);
    }
}

/// A worker's change reaches the record of its transfer and no other, and keeps the ids
/// distinct.
pub proof fn lemma_updated(rs: Seq<Record>, id: Seq<char>, change: Change, now: i64)
    requires
        distinct_ids(rs),
    ensures
        distinct_ids(updated(rs, id, change, now)),
        updated(rs, id, change, now).len() == rs.len(),
        lookup(updated(rs, id, change, now), id) == match lookup(rs, id) {
            Some(r) => Some(changed(r, change, now)),
            None => None,
        },
{
    if holds_id(rs, id) {
        let p = position_of(rs, id);
        assert(0 <= p < rs.len() && rs[p].id == id);
        lemma_with_record_distinct(rs, id, changed(rs[p], change, now));
    }
}

/// No command and no change by a worker moves `updated_at` backwards, whatever the
/// clock says; where the clock has not gone back, the stamp is the time handed in.
pub proof fn lemma_updated_at_never_decreases(r: Record, change: Change, now: i64)
    ensures
        now >= r.updated_at ==> stamp(r.updated_at, now) == now,
        paused(r, now).updated_at >= r.updated_at,
        canceled(r, now).updated_at >= r.updated_at,
        resumed(r, now) is Ok ==> resumed(r, now)->Ok_0.updated_at >= r.updated_at,
        restarted(r, now) is Ok ==> restarted(r, now)->Ok_0.updated_at >= r.updated_at,
        changed(r, change, now).updated_at >= r.updated_at,
{
}

/// Commands that find nothing to do return the record as it is: a pause of a transfer
/// that does not run, a cancel of one that is completed or canceled, a resume of one
/// that is completed. A second pause or cancel changes nothing after the first.
pub proof fn lemma_commands_are_idempotent(r: Record, now: i64, later: i64)
    ensures
        r.status != DownloadStatus::Running ==> paused(r, now) == r,
        cancel_is_idle(r) ==> canceled(r, now) == r,
        r.kind == DownloadKind::Http && r.status == DownloadStatus::Completed ==> resumed(r, now)
            == Ok::<Record, Seq<char>>(r),
        paused(paused(r, now), later) == paused(r, now),
        canceled(canceled(r, now), later) == canceled(r, now),
{
}

/// A transfer that this library does not carry out never leaves the external state by a
/// command: pause and cancel leave its record alone, resume and restart are refused.
pub proof fn lemma_other_kinds_are_not_run(r: Record, now: i64)
    requires
        r.kind != DownloadKind::Http,
        r.status == DownloadStatus::External,
    ensures
        paused(r, now) == r,
        canceled(r, now) == r,
        resumed(r, now) is Err,
        restarted(r, now) is Err,
{
}

/// Canceled wins: a worker that begins to run, or that sees its handle tripped, leaves
/// a canceled transfer canceled.
pub proof fn lemma_canceled_wins(r: Record, now: i64)
    requires
        r.status == DownloadStatus::Canceled,
    ensures
        changed(r, Change::Running, now).status == DownloadStatus::Canceled,
        changed(r, Change::PausedUnlessCanceled, now).status == DownloadStatus::Canceled,
        changed(r, Change::Running, now).error == r.error,
{
}

/// After the removal of a transfer that is not queued, running or paused, no record
/// carries its id, and the other records are as they were.
pub proof fn lemma_removed_is_not_listed(rs: Seq<Record>, id: Seq<char>)
    requires
        distinct_ids(rs),
        remove_outcome(rs, id) is Ok,
    ensures
        !holds_id(after_remove(rs, id), id),
        forall|i: int|
            0 <= i < after_remove(rs, id).len() ==> (#[trigger] after_remove(rs, id)[i]).id != id,
        forall|other: Seq<char>|
            other != id ==> lookup(after_remove(rs, id), other) == lookup(rs, other),
{
    lemma_without_id(rs, id);
}

/// What a command does to the cancellation handle of its transfer.
pub ghost enum HandleEffect {
    /// The handle is the one held before.
    Kept,
    /// The handle is tripped.
    Tripped,
    /// Another handle, not tripped, takes the place of the one held before.
    Renewed,
}

/// Whether the handles `after` a command come from the handles `before` it by the given
/// effect on the handle at position `at`. The handles of the other transfers are the
/// ones held before in any case.
pub open spec fn handles_follow(
    before: Seq<CancellationToken>,
    after: Seq<CancellationToken>,
    at: int,
    effect: HandleEffect,
) -> bool {
    match effect {
        HandleEffect::Kept => after == before,
        HandleEffect::Tripped => {
            &&& after.len() == before.len()
            &&& 0 <= at < before.len()
            &&& forall|j: int| 0 <= j < before.len() && j != at ==> after[j] == before[j]
            &&& tripped(after[at])
        },
        HandleEffect::Renewed => {
            &&& after.len() == before.len()
            &&& 0 <= at < before.len()
            &&& forall|j: int| 0 <= j < before.len() && j != at ==> after[j] == before[j]
            &&& !tripped(after[at])
            &&& after[at] != before[at]
        },
    }
}

/// Whether the handles `after` are the handles `before` with one more behind them that
/// is not tripped.
pub open spec fn handles_joined(before: Seq<CancellationToken>, after: Seq<CancellationToken>) -> bool {
    after.len() == before.len() + 1 && after.drop_last() == before && !tripped(after.last())
}

/// A pause trips the handle of a running transfer and no other.
pub open spec fn pause_effect(rs: Seq<Record>, id: Seq<char>) -> HandleEffect {
    match lookup(rs, id) {
        Some(r) => if r.status == DownloadStatus::Running {
            HandleEffect::Tripped
        } else {
            HandleEffect::Kept
        },
        None => HandleEffect::Kept,
    }
}

/// A cancel trips the handle of a transfer unless it is completed, canceled or external.
pub open spec fn cancel_effect(rs: Seq<Record>, id: Seq<char>) -> HandleEffect {
    match lookup(rs, id) {
        Some(r) => if cancel_is_idle(r) {
            HandleEffect::Kept
        } else {
            HandleEffect::Tripped
        },
        None => HandleEffect::Kept,
    }
}

/// A resume that queues the transfer gives it a new handle; one that is refused, or
/// that finds the transfer completed, keeps the handle.
pub open spec fn resume_effect(rs: Seq<Record>, id: Seq<char>) -> HandleEffect {
    match lookup(rs, id) {
        Some(r) => if r.kind == DownloadKind::Http && r.status != DownloadStatus::Completed && (
        r.resume_supported || r.downloaded_bytes == 0) {
            HandleEffect::Renewed
        } else {
            HandleEffect::Kept
        },
        None => HandleEffect::Kept,
    }
}

/// A restart gives the transfer a new handle; one that is refused keeps the handle.
pub open spec fn restart_effect(rs: Seq<Record>, id: Seq<char>) -> HandleEffect {
    match lookup(rs, id) {
        Some(r) => if r.kind == DownloadKind::Http {
            HandleEffect::Renewed
        } else {
            HandleEffect::Kept
        },
        None => HandleEffect::Kept,
    }
}

struct DownloadRuntime {
    info: DownloadInfo,
    cancel: CancellationToken,
}

/// The set of transfers of one process, with the global rate caps.
pub struct DownloadManager {
    downloads: Vec<DownloadRuntime>,
    speed_limits: SpeedLimits,
}

impl DownloadManager {
    /// The records of all transfers, oldest first.
    pub closed spec fn records(&self) -> Seq<Record> {
        self.downloads@.map_values(|d: DownloadRuntime| d.info@)
    }

    /// The rate caps in force.
    pub closed spec fn limits(&self) -> SpeedLimits {
        self.speed_limits
    }

    /// The cancellation handles of all transfers, in the order of the records.
    pub closed spec fn handles(&self) -> Seq<CancellationToken> {
        self.downloads@.map_values(|d: DownloadRuntime| d.cancel)
    }

    /// The cancellation handle of the transfer `id`.
    pub open spec fn handle_of(&self, id: Seq<char>) -> CancellationToken {
        self.handles()[position_of(self.records(), id)]
    }

    /// Well-formedness: every transfer has an id and a handle of its own.
    pub open spec fn wf(&self) -> bool {
        distinct_ids(self.records()) && self.handles().len() == self.records().len()
    }

    /// An empty registry without rate caps.
    pub fn new() -> (m: Self)
        ensures
            m.wf(),
            m.records() == Seq::<Record>::empty(),
            m.handles() == Seq::<CancellationToken>::empty(),
            m.limits().download_bps is None,
            m.limits().upload_bps is None,
    {
        let m = DownloadManager {
            downloads: Vec::new(),
            speed_limits: SpeedLimits { download_bps: None, upload_bps: None },
        };
        assert(m.records() =~= Seq::<Record>::empty());
        assert(m.handles() =~= Seq::<CancellationToken>::empty());
        m
    }

    fn find(&self, id: &str) -> (r: Option<usize>)
        requires
            self.wf(),
        ensures
            match r {
                Some(i) => i < self.downloads.len() && holds_id(self.records(), id@) && i
                    == position_of(self.records(), id@) && self.downloads[i as int].info@ == lookup(
                    self.records(),
                    id@,
                )->Some_0,
                None => !holds_id(self.records(), id@),
            },
    {
        let key = id.to_owned();
        let mut i: usize = 0;
        while i < self.downloads.len()
            invariant
                self.wf(),
                i <= self.downloads.len(),
                key@ == id@,
                forall|j: int| 0 <= j < i ==> (#[trigger] self.records()[j]).id != id@,
            decreases self.downloads.len() - i,
        {
            if self.downloads[i].info.id == key {
                proof {
                    assert(self.records()[i as int].id == id@);
                    lemma_position(self.records(), i as int);
                }
                return Some(i);
            }
            i += 1;
        }
        None
    }

    /// Whether a transfer is held under `id`.
    pub fn holds(&self, id: &str) -> (r: bool)
        requires
            self.wf(),
        ensures
            r == holds_id(self.records(), id@),
    {
        self.find(id).is_some()
    }

    /// A copy of the record of the transfer `id`.
    pub fn get(&self, id: &str) -> (r: Option<DownloadInfo>)
        requires
            self.wf(),
        ensures
            opt_record(r) == lookup(self.records(), id@),
    {
        match self.find(id) {
            Some(i) => Some(self.downloads[i].info.clone()),
            None => None,
        }
    }

    /// Copies of all records.
    pub fn list(&self) -> (r: Vec<DownloadInfo>)
        ensures
            record_views(r@) == self.records(),
    {
        let mut out: Vec<DownloadInfo> = Vec::new();
        let mut i: usize = 0;
        while i < self.downloads.len()
            invariant
                i <= self.downloads.len(),
                record_views(out@) == self.records().take(i as int),
            decreases self.downloads.len() - i,
        {
            let copy = self.downloads[i].info.clone();
            assert(copy@ == self.records()[i as int]);
            let ghost before = out@;
            out.push(copy);
            assert(record_views(out@) =~= record_views(before).push(copy@));
            assert(record_views(out@) =~= self.records().take(i + 1));
            i += 1;
        }
        assert(self.records().take(i as int) =~= self.records());
        out
    }

    /// A copy, to ask only, of the handle that stops the current attempt at the
    /// transfer `id`.
    pub fn cancel_handle(&self, id: &str) -> (r: Option<CancelWatch>)
        requires
            self.wf(),
        ensures
            r is Some <==> holds_id(self.records(), id@),
            r matches Some(watch) ==> watch.source() == self.handle_of(id@),
    {
        match self.find(id) {
            Some(i) => Some(CancelWatch::of(&self.downloads[i].cancel)),
            None => None,
        }
    }

    /// The download cap in bytes per second, zero for none.
    pub fn download_limit(&self) -> (r: u64)
        ensures
            r == self.limits().download_cap(),
    {
        match self.speed_limits.download_bps {
            Some(v) => v,
            None => 0,
        }
    }

    /// Stores the normalized caps and returns them.
    pub fn set_limits(&mut self, limits: SpeedLimits) -> (r: SpeedLimits)
        ensures
            r == limits.normalized(),
            final(self).limits() == limits.normalized(),
            final(self).records() == old(self).records(),
            final(self).handles() == old(self).handles(),
    {
        self.speed_limits = limits.normalize();
        self.speed_limits
    }

    /// Registers a transfer under a new handle of its own. A record with the same id is
    /// replaced, and its handle with it.
    pub fn insert(&mut self, info: DownloadInfo)
        requires
            old(self).wf(),
        ensures
            final(self).wf(),
            final(self).records() == registered(old(self).records(), info@),
            final(self).limits() == old(self).limits(),
            lookup(final(self).records(), info@.id) == Some(info@),
            !tripped(final(self).handle_of(info@.id)),
            if holds_id(old(self).records(), info@.id) {
                handles_follow(
                    old(self).handles(),
                    final(self).handles(),
                    position_of(old(self).records(), info@.id),
                    HandleEffect::Renewed,
                )
            } else {
                handles_joined(old(self).handles(), final(self).handles())
            },
    {
        let ghost before = self.records();
        let ghost handles = self.handles();
        let ghost r = info@;
        let found = self.find(info.id.as_str());
        match found {
            Some(i) => {
                let cancel = fresh_handle(Some(&self.downloads[i].cancel));
                self.downloads.set(i, DownloadRuntime { info, cancel });
                assert(self.records() =~= before.update(i as int, r));
                assert(self.handles() =~= handles.update(i as int, cancel));
                proof {
                    lemma_with_record_distinct(before, r.id, r);
                    lemma_position(self.records(), i as int);
                }
            },
            None => {
                let cancel = fresh_handle(None);
                self.downloads.push(DownloadRuntime { info, cancel });
                assert(self.records() =~= before.push(r));
                assert(self.handles() =~= handles.push(cancel));
                assert(self.handles().drop_last() =~= handles);
                proof {
                    let n = before.len() as int;
                    assert forall|i: int, j: int| 0 <= i < j < self.records().len() implies self.records()[i].id
                        != self.records()[j].id by {
                        if j == n {
                            assert(before[i].id != r.id);
                        }
                    }
                    lemma_position(self.records(), n);
                }
            },
        }
    }

    /// Applies a worker's change to the record of the transfer `id` and stamps it for
    /// the time `now`, see [`stamp`]. Nothing happens where the transfer is gone, and no
    /// handle is touched.
    pub fn update(&mut self, id: &str, change: RecordChange, now: i64)
        requires
            old(self).wf(),
        ensures
            final(self).wf(),
            final(self).records() == updated(old(self).records(), id@, change@, now),
            final(self).handles() == old(self).handles(),
            final(self).limits() == old(self).limits(),
    {
        let ghost before = self.records();
        let ghost handles = self.handles();
        let i = match self.find(id) {
            Some(i) => i,
            None => { return ; },
        };
        let ghost r = before[i as int];
        match change {
            RecordChange::Running => {
                if self.downloads[i].info.status != DownloadStatus::Canceled {
                    self.downloads[i].info.status = DownloadStatus::Running;
                    self.downloads[i].info.error = None;
                }
            },
            RecordChange::Failed { reason } => {
                self.downloads[i].info.status = DownloadStatus::Failed;
                self.downloads[i].info.error = Some(reason);
            },
            RecordChange::FailedNoResume { reason } => {
                self.downloads[i].info.status = DownloadStatus::Failed;
                self.downloads[i].info.error = Some(reason);
                self.downloads[i].info.resume_supported = false;
            },
            RecordChange::Sizes { total_bytes, resume_supported } => {
                self.downloads[i].info.total_bytes = total_bytes;
                self.downloads[i].info.resume_supported = resume_supported;
            },
            RecordChange::PausedUnlessCanceled => {
                if self.downloads[i].info.status != DownloadStatus::Canceled {
                    self.downloads[i].info.status = DownloadStatus::Paused;
                }
            },
            RecordChange::Progress { downloaded_bytes, speed_bps } => {
                self.downloads[i].info.downloaded_bytes = downloaded_bytes;
                self.downloads[i].info.speed_bps = speed_bps;
            },
            RecordChange::Downloaded { downloaded_bytes } => {
                self.downloads[i].info.downloaded_bytes = downloaded_bytes;
            },
            RecordChange::Completed { downloaded_bytes } => {
                self.downloads[i].info.status = DownloadStatus::Completed;
                if self.downloads[i].info.total_bytes.is_none() {
                    self.downloads[i].info.total_bytes = Some(downloaded_bytes);
                }
                self.downloads[i].info.speed_bps = 0;
            },
        }
        self.downloads[i].info.updated_at = stamp_at(self.downloads[i].info.updated_at, now);
        proof {
            assert(self.records() =~= before.update(i as int, changed(r, change@, now)));
            assert(self.handles() =~= handles);
            lemma_with_record_distinct(before, id@, changed(r, change@, now));
        }
    }

    /// Pauses the transfer `id`: a running transfer becomes paused and its handle is
    /// tripped; any other transfer is returned as it is.
    pub fn pause(&mut self, id: &str, now: i64) -> (result: Result<DownloadInfo, String>)
        requires
            old(self).wf(),
        ensures
            final(self).wf(),
            final(self).limits() == old(self).limits(),
            outcome_view(result) == pause_outcome(old(self).records(), id@, now),
            final(self).records() == stored(
                old(self).records(),
                id@,
                pause_outcome(old(self).records(), id@, now),
            ),
            handles_follow(
                old(self).handles(),
                final(self).handles(),
                position_of(old(self).records(), id@),
                pause_effect(old(self).records(), id@),
            ),
    {
        let ghost before = self.records();
        let ghost handles = self.handles();
        let i = match self.find(id) {
            Some(i) => i,
            None => { return Err("Download not found".to_owned()); },
        };
        if self.downloads[i].info.status == DownloadStatus::Running {
            self.downloads[i].info.status = DownloadStatus::Paused;
            self.downloads[i].info.updated_at = stamp_at(self.downloads[i].info.updated_at, now);
            trip(&mut self.downloads[i].cancel);
        } else {
            assert(self.handles() =~= handles);
        }
        proof {
            assert(self.records() =~= before.update(i as int, paused(before[i as int], now)));
            lemma_with_record_distinct(before, id@, paused(before[i as int], now));
        }
        Ok(self.downloads[i].info.clone())
    }

    /// Cancels the transfer `id`: unless it is completed or canceled already, it becomes
    /// canceled and its handle is tripped.
    pub fn cancel(&mut self, id: &str, now: i64) -> (result: Result<DownloadInfo, String>)
        requires
            old(self).wf(),
        ensures
            final(self).wf(),
            final(self).limits() == old(self).limits(),
            outcome_view(result) == cancel_outcome(old(self).records(), id@, now),
            final(self).records() == stored(
                old(self).records(),
                id@,
                cancel_outcome(old(self).records(), id@, now),
            ),
            handles_follow(
                old(self).handles(),
                final(self).handles(),
                position_of(old(self).records(), id@),
                cancel_effect(old(self).records(), id@),
            ),
    {
        let ghost before = self.records();
        let ghost handles = self.handles();
        let i = match self.find(id) {
            Some(i) => i,
            None => { return Err("Download not found".to_owned()); },
        };
        let status = self.downloads[i].info.status;
        if status != DownloadStatus::Completed && status != DownloadStatus::Canceled && status
            != DownloadStatus::External {
            self.downloads[i].info.status = DownloadStatus::Canceled;
            self.downloads[i].info.updated_at = stamp_at(self.downloads[i].info.updated_at, now);
            trip(&mut self.downloads[i].cancel);
        } else {
            assert(self.handles() =~= handles);
        }
        proof {
            assert(self.records() =~= before.update(i as int, canceled(before[i as int], now)));
            lemma_with_record_distinct(before, id@, canceled(before[i as int], now));
        }
        Ok(self.downloads[i].info.clone())
    }

    /// Resumes the transfer `id`: it is queued again under a new handle. A completed
    /// transfer is returned as it is; the caller starts a worker where the returned
    /// record is queued.
    pub fn resume(&mut self, id: &str, now: i64) -> (result: Result<DownloadInfo, String>)
        requires
            old(self).wf(),
        ensures
            final(self).wf(),
            final(self).limits() == old(self).limits(),
            outcome_view(result) == resume_outcome(old(self).records(), id@, now),
            final(self).records() == stored(
                old(self).records(),
                id@,
                resume_outcome(old(self).records(), id@, now),
            ),
            handles_follow(
                old(self).handles(),
                final(self).handles(),
                position_of(old(self).records(), id@),
                resume_effect(old(self).records(), id@),
            ),
    {
        let ghost before = self.records();
        let ghost handles = self.handles();
        let i = match self.find(id) {
            Some(i) => i,
            None => { return Err("Download not found".to_owned()); },
        };
        if self.downloads[i].info.kind != DownloadKind::Http {
            return Err("Resume is only available for HTTP downloads.".to_owned());
        }
        if self.downloads[i].info.status == DownloadStatus::Completed {
            proof {
                assert(before =~= before.update(i as int, before[i as int]));
            }
            return Ok(self.downloads[i].info.clone());
        }
        if !self.downloads[i].info.resume_supported && self.downloads[i].info.downloaded_bytes > 0 {
            return Err(
                "Server does not support resume. Restart the download instead.".to_owned(),
            );
        }
        let renewed = fresh_handle(Some(&self.downloads[i].cancel));
        self.downloads[i].cancel = renewed;
        self.downloads[i].info.status = DownloadStatus::Queued;
        self.downloads[i].info.error = None;
        self.downloads[i].info.updated_at = stamp_at(self.downloads[i].info.updated_at, now);
        proof {
            let next = resumed(before[i as int], now)->Ok_0;
            assert(self.records() =~= before.update(i as int, next));
            lemma_with_record_distinct(before, id@, next);
        }
        Ok(self.downloads[i].info.clone())
    }

    /// Restarts the transfer `id` from nothing: progress and error are forgotten and it
    /// is queued under a new handle. The caller deletes the partial file and starts a
    /// worker.
    pub fn restart(&mut self, id: &str, now: i64) -> (result: Result<DownloadInfo, String>)
        requires
            old(self).wf(),
        ensures
            final(self).wf(),
            final(self).limits() == old(self).limits(),
            outcome_view(result) == restart_outcome(old(self).records(), id@, now),
            final(self).records() == stored(
                old(self).records(),
                id@,
                restart_outcome(old(self).records(), id@, now),
            ),
            handles_follow(
                old(self).handles(),
                final(self).handles(),
                position_of(old(self).records(), id@),
                restart_effect(old(self).records(), id@),
            ),
    {
        let ghost before = self.records();
        let ghost handles = self.handles();
        let i = match self.find(id) {
            Some(i) => i,
            None => { return Err("Download not found".to_owned()); },
        };
        if self.downloads[i].info.kind != DownloadKind::Http {
            return Err("Restart is only available for HTTP downloads.".to_owned());
        }
        self.downloads[i].info.downloaded_bytes = 0;
        self.downloads[i].info.total_bytes = None;
        self.downloads[i].info.speed_bps = 0;
        self.downloads[i].info.status = DownloadStatus::Queued;
        self.downloads[i].info.error = None;
        let renewed = fresh_handle(Some(&self.downloads[i].cancel));
        self.downloads[i].cancel = renewed;
        self.downloads[i].info.updated_at = stamp_at(self.downloads[i].info.updated_at, now);
        proof {
            let next = restarted(before[i as int], now)->Ok_0;
            assert(self.records() =~= before.update(i as int, next));
            lemma_with_record_distinct(before, id@, next);
        }
        Ok(self.downloads[i].info.clone())
    }

    /// Removes the transfer `id`, unless it is queued, running or paused.
    pub fn remove(&mut self, id: &str) -> (result: Result<(), String>)
        requires
            old(self).wf(),
        ensures
            final(self).wf(),
            final(self).limits() == old(self).limits(),
            match remove_outcome(old(self).records(), id@) {
                Ok(_) => result is Ok,
                Err(e) => result is Err && result->Err_0@ == e,
            },
            final(self).records() == after_remove(old(self).records(), id@),
            final(self).handles() == if result is Ok {
                old(self).handles().remove(position_of(old(self).records(), id@))
            } else {
                old(self).handles()
            },
            result is Ok ==> !holds_id(final(self).records(), id@),
    {
        let ghost before = self.records();
        let ghost handles = self.handles();
        let i = match self.find(id) {
            Some(i) => i,
            None => { return Err("Download not found".to_owned()); },
        };
        let status = self.downloads[i].info.status;
        if status == DownloadStatus::Running || status == DownloadStatus::Queued || status
            == DownloadStatus::Paused {
            return Err("Stop the download before removing it.".to_owned());
        }
        self.downloads.remove(i);
        proof {
            assert(self.records() =~= before.remove(i as int));
            assert(self.handles() =~= handles.remove(i as int));
            lemma_without_id(before, id@);
        }
        Ok(())
    }
}

} // verus!
