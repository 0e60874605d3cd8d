use crate::decimal::{decimal, lemma_decimal_round_trip};
use crate::protocol::range_value;
use crate::worker::{
    event_fits, step_of, worker_wf, Action, WorkerEvent, WorkerPhase, WorkerState,
};
use crate::model::Record;
use vstd::prelude::*;

verus! {

/// The bytes around one attempt: what the server holds, what the files hold, and what
/// is on its way.
pub ghost struct World {
    /// The body that the server holds for the URL.
    pub body: Seq<u8>,
    /// The content of the partial file; empty where there is none.
    pub temp: Seq<u8>,
    /// The content of the target file, once there is one.
    pub saved: Option<Seq<u8>>,
    /// The position in the body up to which the server has handed out its answer.
    pub sent: int,
    /// The chunk at hand.
    pub chunk: Seq<u8>,
}

/// Whether `part` is the beginning of `whole`.
pub open spec fn is_prefix(part: Seq<u8>, whole: Seq<u8>) -> bool {
    part.len() <= whole.len() && part == whole.subrange(0, part.len() as int)
}

/// What a world without faults makes of a worker's request: directories and files do
/// as they are told, and the server answers a request from an offset with the rest of
/// the body from there on (206 for an offset above zero, 200 else), in chunks of any
/// length. Nothing is asked by `Announce` and `Stop`.
pub open spec fn world_answers(before: World, action: Action, event: WorkerEvent, after: World) -> bool {
    match action {
        Action::PrepareDirectory { .. } => event is Succeeded && after == before,
        Action::Sleep { .. } => event is Succeeded && after == before,
        Action::Flush => event is Succeeded && after == before,
        Action::ProbeTemp { .. } => {
            &&& event matches WorkerEvent::TempLength { bytes }
            &&& bytes == before.temp.len()
            &&& after == before
        },
        Action::SendRequest { range, .. } => {
            &&& event matches WorkerEvent::Response { head }
            &&& exists|offset: u64|
                {
                    &&& range == #[trigger] range_value(offset)
                    &&& offset <= before.body.len()
                    &&& head.status == if offset > 0 {
                        206u16
                    } else {
                        200u16
                    }
                    &&& after == World { sent: offset as int, ..before }
                }
        },
        Action::OpenTemp { append, .. } => {
            &&& event is Succeeded
            &&& after == World {
                temp: if append {
                    before.temp
                } else {
                    Seq::empty()
                },
                ..before
            }
        },
        Action::ReadChunk => if 0 <= before.sent < before.body.len() {
            &&& event matches WorkerEvent::Chunk { len }
            &&& len > 0
            &&& before.sent + len <= before.body.len()
            &&& after == World {
                chunk: before.body.subrange(before.sent, before.sent + len),
                sent: before.sent + len,
                ..before
            }
        } else {
            event is StreamEnded && after == before
        },
        Action::WriteChunk => event is Succeeded && after == World {
            temp: before.temp + before.chunk,
            ..before
        },
        Action::Rename { .. } => event is Succeeded && after == World {
            saved: Some(before.temp),
            temp: Seq::empty(),
            ..before
        },
        Action::Announce { .. } => false,
        Action::Stop => false,
    }
}

/// What holds between a worker, its pending request and a world without faults: the
/// partial file is the beginning of the body as far as the worker has counted, the
/// chunk at hand is the part of the body that comes next, and once the worker
/// announces the transfer, the target file is the body.
pub open spec fn attempt_inv(w: WorkerState, world: World, action: Action) -> bool {
    &&& world.body.len() <= u64::MAX
    &&& match w.phase {
        WorkerPhase::PreparingDirectory => is_prefix(world.temp, world.body)
            && action is PrepareDirectory,
        WorkerPhase::ProbingTemp => is_prefix(world.temp, world.body) && action is ProbeTemp,
        WorkerPhase::Requesting => {
            &&& is_prefix(world.temp, world.body)
            &&& w.downloaded == world.temp.len()
            &&& action == (Action::SendRequest { url: w.url, range: range_value(w.downloaded) })
        },
        WorkerPhase::OpeningTemp => {
            &&& is_prefix(world.temp, world.body)
            &&& w.downloaded == world.temp.len()
            &&& world.sent == w.downloaded
            &&& action == (Action::OpenTemp { temp_path: w.temp_path, append: w.downloaded > 0 })
        },
        WorkerPhase::Streaming => {
            &&& is_prefix(world.temp, world.body)
            &&& w.downloaded == world.temp.len()
            &&& world.sent == w.downloaded
            &&& action is ReadChunk
        },
        WorkerPhase::Throttled => chunk_at_hand(w, world) && action is Sleep,
        WorkerPhase::Writing => chunk_at_hand(w, world) && action is WriteChunk,
        WorkerPhase::Flushing => world.temp == world.body && w.downloaded == world.body.len()
            && action is Flush,
        WorkerPhase::Finalizing => world.temp == world.body && action is PrepareDirectory,
        WorkerPhase::Renaming => world.temp == world.body && action is Rename,
        WorkerPhase::Done => if action is Announce {
            world.saved == Some(world.body)
        } else {
            action is Stop && is_prefix(world.temp, world.body)
        },
    }
}

/// The partial file is the body up to the worker's count, and the chunk at hand is
/// the part of the body behind it.
pub open spec fn chunk_at_hand(w: WorkerState, world: World) -> bool {
    &&& is_prefix(world.temp, world.body)
    &&& w.downloaded == world.temp.len()
    &&& world.sent == w.downloaded + w.chunk_len
    &&& world.sent <= world.body.len()
    &&& world.chunk == world.body.subrange(w.downloaded as int, w.downloaded + w.chunk_len)
}

/// Two offsets with the same `Range` value are the same offset.
pub proof fn lemma_range_value_tells_the_offset(a: u64, b: u64)
    requires
        range_value(a) == range_value(b),
    ensures
        a == b,
{
    if a > 0 && b > 0 {
        let head = seq!['b', 'y', 't', 'e', 's', '='];
        let tail = seq!['-'];
        let ta = head + decimal(a as nat) + tail;
        let tb = head + decimal(b as nat) + tail;
        assert(ta == tb);
        assert(ta.subrange(6, ta.len() - 1) =~= decimal(a as nat));
        assert(tb.subrange(6, tb.len() - 1) =~= decimal(b as nat));
        lemma_decimal_round_trip(a as nat);
        lemma_decimal_round_trip(b as nat);
    }
}

/// An attempt begins in order with any world whose partial file is a beginning of the
/// body.
pub proof fn lemma_attempt_begins(w: WorkerState, world: World, action: Action)
    requires
        w.phase == WorkerPhase::PreparingDirectory,
        action is PrepareDirectory,
        is_prefix(world.temp, world.body),
        world.body.len() <= u64::MAX,
    ensures
        attempt_inv(w, world, action),
{
}

/// In a world without faults every step of a worker keeps the bytes in order, whenever
/// the worker is paused or canceled: the request asks for the body from the length of
/// the partial file on, the partial file only grows and stays a beginning of the body,
/// and the file that is renamed into place is the body, byte for byte.
pub proof fn lemma_bytes_follow_the_body(
    w: WorkerState,
    rs: Seq<Record>,
    limit: u64,
    world: World,
    action: Action,
    event: WorkerEvent,
    after: World,
    tripped: bool,
    clock: u64,
    now: i64,
)
    requires
        worker_wf(w),
        attempt_inv(w, world, action),
        world_answers(world, action, event, after),
    ensures
        event_fits(w, event),
        attempt_inv(
            step_of(w, rs, limit, event, tripped, clock, now).worker,
            after,
            step_of(w, rs, limit, event, tripped, clock, now).action,
        ),
        action is Rename || is_prefix(world.temp, after.temp),
        after.body == world.body,
{
    let next = step_of(w, rs, limit, event, tripped, clock, now);
    match w.phase {
        WorkerPhase::Requesting => {
            let offset = choose|offset: u64|
                {
                    &&& range_value(w.downloaded) == #[trigger] range_value(offset)
                    &&& offset <= world.body.len()
                    &&& event->Response_head.status == if offset > 0 {
                        206u16
                    } else {
                        200u16
                    }
                    &&& after == World { sent: offset as int, ..world }
                };
            lemma_range_value_tells_the_offset(w.downloaded, offset);
        },
        WorkerPhase::OpeningTemp => {
            assert(after.temp =~= world.temp);
        },
        WorkerPhase::Streaming => {
            if event is StreamEnded {
                assert(world.temp =~= world.body);
            }
        },
        WorkerPhase::Writing => {
            assert(after.temp =~= world.body.subrange(0, w.downloaded + w.chunk_len));
            assert(world.temp =~= after.temp.subrange(0, world.temp.len() as int));
        },
        _ => {},
    }
    assert(world.temp =~= world.temp.subrange(0, world.temp.len() as int));
}

} // verus!
