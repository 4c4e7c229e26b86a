//! One direction of a connection as a state machine: the caller reads,
//! sleeps and writes; the pipe decides what is to be done next.

use crate::config::ShapingConfig;
use crate::shaping::{
    apply_bandwidth, apply_delay, apply_drop, delay_high, delay_low, drop_high, drop_low,
    lemma_min_duration_covers, min_duration_ms, throttle_wait,
};
use crate::stats::{saturating_sum, Stats};
use vstd::prelude::*;

verus! {

/// Where a pipe stands between two actions.
#[derive(Clone, Copy, Debug, PartialEq, Eq, Structural)]
pub enum PipeState {
    /// A read from the source is under way.
    Reading,
    /// A chunk of `len` bytes is held back for the added latency.
    Delaying { len: u64 },
    /// A chunk of `len` bytes waits for the bandwidth cap.
    Throttling { len: u64 },
    /// A chunk of `len` bytes is being written to the destination.
    Writing { len: u64 },
    /// The pipe has ended.
    Closed,
}

/// What the caller reports back to the pipe.
#[derive(Clone, Copy, Debug, PartialEq, Eq, Structural)]
pub enum PipeEvent {
    /// The read gave `len` bytes; none at all means that the source has ended.
    Read { len: u64 },
    /// The read failed.
    ReadFailed,
    /// The sleep is over; the chunk has been held for `elapsed_ms`
    /// milliseconds since it was read.
    Slept { elapsed_ms: u64 },
    /// The chunk was written in full.
    Written,
    /// The write failed or was cut short.
    WriteFailed,
}

/// What the caller is to do next.
#[derive(Clone, Copy, Debug, PartialEq, Eq, Structural)]
pub enum PipeAction {
    /// Read the next chunk from the source.
    Read,
    /// Sleep for `ms` milliseconds.
    Sleep { ms: u64 },
    /// Write the `len` bytes of the chunk at hand to the destination.
    Write { len: u64 },
    /// End this direction.
    Stop,
}

/// The steps that a pipe may take from `state` on `event`, under the
/// configuration `cfg` and with the statistics `before`.
///
/// A chunk that was read is either dropped and counted, which takes a
/// positive drop chance, or held back and counted as delayed, which takes a
/// chance below a hundred. Every other step is fixed by state and event;
/// an event that does not fit the state ends the pipe.
pub open spec fn pipe_allows(
    state: PipeState,
    event: PipeEvent,
    cfg: ShapingConfig,
    before: Stats,
    next: PipeState,
    action: PipeAction,
    after: Stats,
) -> bool {
    match (state, event) {
        (PipeState::Reading, PipeEvent::Read { len }) if len > 0 => {
            ||| {
                &&& drop_high(cfg) > 0
                &&& next == PipeState::Reading
                &&& action == PipeAction::Read
                &&& after == (Stats {
                    packets_dropped: saturating_sum(before.packets_dropped, 1),
                    ..before
                })
            }
            ||| {
                &&& drop_low(cfg) < 100
                &&& next == (PipeState::Delaying { len })
                &&& action matches PipeAction::Sleep { ms }
                &&& delay_low(cfg) <= ms <= delay_high(cfg)
                &&& after == (Stats {
                    bytes_delayed: saturating_sum(before.bytes_delayed, len),
                    ..before
                })
            }
        },
        (PipeState::Delaying { len }, PipeEvent::Slept { elapsed_ms }) => {
            &&& next == (PipeState::Throttling { len })
            &&& action == (PipeAction::Sleep {
                ms: throttle_wait(len, cfg.bandwidth_kbps, elapsed_ms),
            })
            &&& after == before
        },
        (PipeState::Throttling { len }, PipeEvent::Slept { elapsed_ms }) => {
            &&& next == (PipeState::Writing { len })
            &&& action == (PipeAction::Write { len })
            &&& after == before
        },
        (PipeState::Writing { len }, PipeEvent::Written) => {
            &&& next == PipeState::Reading
            &&& action == PipeAction::Read
            &&& after == before
        },
        _ => {
            &&& next == PipeState::Closed
            &&& action == PipeAction::Stop
            &&& after == before
        },
    }
}

/// The state a pipe starts in; its first action is a read.
pub fn pipe_start() -> (r: (PipeState, PipeAction))
    ensures
        r.0 == PipeState::Reading,
        r.1 == PipeAction::Read,
{
    (PipeState::Reading, PipeAction::Read)
}

/// Takes one step of a pipe: given where it stands and what the caller
/// reports, says where it stands next and what the caller is to do.
///
/// The configuration is the one in force at this step, so that a change
/// takes effect with the next decision.
pub fn pipe_step(state: PipeState, event: PipeEvent, cfg: &ShapingConfig, stats: &mut Stats) -> (r:
    (PipeState, PipeAction))
    requires
        cfg.wf(),
    ensures
        pipe_allows(state, event, *cfg, *old(stats), r.0, r.1, *final(stats)),
{
    match (state, event) {
        (PipeState::Reading, PipeEvent::Read { len }) => {
            if len == 0 {
                (PipeState::Closed, PipeAction::Stop)
            } else if apply_drop(cfg, stats) {
                (PipeState::Reading, PipeAction::Read)
            } else {
                let ms = apply_delay(cfg, stats, len);
                (PipeState::Delaying { len }, PipeAction::Sleep { ms })
            }
        },
        (PipeState::Delaying { len }, PipeEvent::Slept { elapsed_ms }) => {
            let ms = apply_bandwidth(cfg, len, elapsed_ms);
            (PipeState::Throttling { len }, PipeAction::Sleep { ms })
        },
        (PipeState::Throttling { len }, PipeEvent::Slept { elapsed_ms: _ }) => {
            (PipeState::Writing { len }, PipeAction::Write { len })
        },
        (PipeState::Writing { len: _ }, PipeEvent::Written) => {
            (PipeState::Reading, PipeAction::Read)
        },
        _ => (PipeState::Closed, PipeAction::Stop),
    }
}

/// With a drop chance of zero every chunk that is read goes on to be
/// forwarded, and no drop is counted.
pub proof fn lemma_zero_chance_forwards(
    cfg: ShapingConfig,
    before: Stats,
    len: u64,
    next: PipeState,
    action: PipeAction,
    after: Stats,
)
    requires
        cfg.wf(),
        cfg.drop_pct == 0,
        len > 0,
        pipe_allows(PipeState::Reading, PipeEvent::Read { len }, cfg, before, next, action, after),
    ensures
        next == (PipeState::Delaying { len }),
        after.packets_dropped == before.packets_dropped,
{
}

/// With a drop chance of a hundred every chunk that is read is dropped: the
/// pipe goes back to reading, writes nothing, and counts exactly one drop
/// more, as long as the counter has room.
pub proof fn lemma_full_chance_forwards_nothing(
    cfg: ShapingConfig,
    before: Stats,
    len: u64,
    next: PipeState,
    action: PipeAction,
    after: Stats,
)
    requires
        cfg.wf(),
        cfg.drop_pct == 100,
        len > 0,
        before.packets_dropped < u64::MAX,
        pipe_allows(PipeState::Reading, PipeEvent::Read { len }, cfg, before, next, action, after),
    ensures
        next == PipeState::Reading,
        action == PipeAction::Read,
        after.packets_dropped == before.packets_dropped + 1,
        after.bytes_delayed == before.bytes_delayed,
{
}

/// Whatever step a pipe takes, the counters never go down and the status
/// message stays as it is.
pub proof fn lemma_counters_only_grow(
    state: PipeState,
    event: PipeEvent,
    cfg: ShapingConfig,
    before: Stats,
    next: PipeState,
    action: PipeAction,
    after: Stats,
)
    requires
        pipe_allows(state, event, cfg, before, next, action, after),
    ensures
        after.packets_dropped >= before.packets_dropped,
        after.bytes_delayed >= before.bytes_delayed,
        after.status_message == before.status_message,
{
}

/// Chunks leave in the order they came: the only chunk a pipe ever writes is
/// the one it read last, and it reads no other before that one is written.
pub proof fn lemma_writes_what_was_read(
    state: PipeState,
    event: PipeEvent,
    cfg: ShapingConfig,
    before: Stats,
    next: PipeState,
    action: PipeAction,
    after: Stats,
)
    requires
        pipe_allows(state, event, cfg, before, next, action, after),
    ensures
        action matches PipeAction::Write { len } ==> state == (PipeState::Throttling { len }),
        action is Read ==> state is Reading || state is Writing,
        next matches PipeState::Delaying { len } ==> event == (PipeEvent::Read { len }),
        next matches PipeState::Throttling { len } ==> state == (PipeState::Delaying { len }),
{
}

/// A chunk is written only after it has been held at least as long as the
/// bandwidth cap asks, as long as that wait fits in 64 bits.
pub proof fn lemma_wait_respects_cap(
    cfg: ShapingConfig,
    stats: Stats,
    len: u64,
    elapsed_ms: u64,
    next: PipeState,
    action: PipeAction,
    after: Stats,
)
    requires
        cfg.wf(),
        min_duration_ms(len, cfg.bandwidth_kbps) - elapsed_ms <= u64::MAX,
        pipe_allows(
            PipeState::Delaying { len },
            PipeEvent::Slept { elapsed_ms },
            cfg,
            stats,
            next,
            action,
            after,
        ),
    ensures
        action matches PipeAction::Sleep { ms } && (elapsed_ms + ms) * cfg.bandwidth_kbps >= 8
            * len,
{
    lemma_min_duration_covers(len, cfg.bandwidth_kbps);
    let ms = throttle_wait(len, cfg.bandwidth_kbps, elapsed_ms);
    let k = cfg.bandwidth_kbps as int;
    let d = min_duration_ms(len, cfg.bandwidth_kbps);
    assert((elapsed_ms + ms) * k >= 8 * len) by (nonlinear_arith)
        requires
            elapsed_ms + ms >= d,
            d * k >= 8 * len,
            k >= 1,
    ;
}

} // verus!
