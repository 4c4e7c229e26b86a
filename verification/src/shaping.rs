//! The shaping policy: whether a chunk is dropped, how long it is held back,
//! and how long it must wait to respect the bandwidth cap.

use crate::config::ShapingConfig;
use crate::stats::{saturating_sum, Stats};
use rand::Rng;
use vstd::prelude::*;

verus! {

/// The largest chunk a pipe reads at once, in bytes.
pub const MAX_CHUNK: usize = 8192;

/// Draws a number between `low` and `high`, both included.
///
/// Calls `rand::Rng::gen_range` on the generator of the current thread, with
/// the inclusive range `low..=high`. The contract claims only that the
/// number lies in that range; which one it is differs from call to call. The
/// call fails where the range is empty, which `requires` rules out, or where
/// the operating system cannot seed the generator.
#[verifier::external_body]
pub(crate) fn random_between(low: u64, high: u64) -> (r: u64)
    requires
        low <= high,
    ensures
        low <= r <= high,
{
    rand::thread_rng().gen_range(low..=high)
}

/// How far the drop chance may swing under chaos: as far as it can go both
/// ways without leaving the percentages.
pub open spec fn drop_swing(cfg: ShapingConfig) -> int {
    if cfg.drop_pct <= 50 {
        cfg.drop_pct as int
    } else {
        100 - cfg.drop_pct
    }
}

/// The lowest drop chance a decision may use.
pub open spec fn drop_low(cfg: ShapingConfig) -> int {
    if cfg.chaos {
        cfg.drop_pct - drop_swing(cfg)
    } else {
        cfg.drop_pct as int
    }
}

/// The highest drop chance a decision may use.
pub open spec fn drop_high(cfg: ShapingConfig) -> int {
    if cfg.chaos {
        cfg.drop_pct + drop_swing(cfg)
    } else {
        cfg.drop_pct as int
    }
}

/// Whether a chunk is dropped when the chance is `chance` percent and the
/// draw among the hundred percentages was `roll`.
pub open spec fn drops(chance: int, roll: int) -> bool {
    roll < chance
}

/// The shortest delay a chunk may be given.
pub open spec fn delay_low(cfg: ShapingConfig) -> int {
    if cfg.chaos {
        cfg.latency_ms - cfg.latency_ms / 2
    } else {
        cfg.latency_ms as int
    }
}

/// The longest delay a chunk may be given.
pub open spec fn delay_high(cfg: ShapingConfig) -> int {
    if cfg.chaos {
        if cfg.latency_ms + cfg.latency_ms / 2 > u64::MAX {
            u64::MAX as int
        } else {
            cfg.latency_ms + cfg.latency_ms / 2
        }
    } else {
        cfg.latency_ms as int
    }
}

/// The least time, in milliseconds, that a chunk of `len` bytes occupies a
/// link of `kbps` kilobits per second: its bits over the bits per
/// millisecond, rounded up.
pub open spec fn min_duration_ms(len: u64, kbps: u64) -> int {
    (8 * len + kbps - 1) / (kbps as int)
}

/// How long a chunk of `len` bytes still has to wait after `elapsed_ms`
/// milliseconds to respect the cap, held at the largest 64-bit value.
pub open spec fn throttle_wait(len: u64, kbps: u64, elapsed_ms: u64) -> u64 {
    let rest = min_duration_ms(len, kbps) - elapsed_ms;
    if rest <= 0 {
        0
    } else if rest > u64::MAX {
        u64::MAX
    } else {
        rest as u64
    }
}

/// The range of drop chances that a decision under `cfg` may use.
pub fn drop_range(cfg: &ShapingConfig) -> (r: (u64, u64))
    requires
        cfg.wf(),
    ensures
        r.0 == drop_low(*cfg),
        r.1 == drop_high(*cfg),
        r.0 <= r.1 <= 100,
{
    let pct: u64 = cfg.drop_pct as u64;
    if cfg.chaos {
        let swing: u64 = if pct <= 50 {
            pct
        } else {
            100 - pct
        };
        (pct - swing, pct + swing)
    } else {
        (pct, pct)
    }
}

/// Decides on one chunk for a given chance and a given draw.
pub fn chunk_dropped(chance: u64, roll: u64) -> (dropped: bool)
    ensures
        dropped == drops(chance as int, roll as int),
{
    roll < chance
}

/// The range of delays that a chunk may be given under `cfg`.
pub fn delay_range(cfg: &ShapingConfig) -> (r: (u64, u64))
    ensures
        r.0 == delay_low(*cfg),
        r.1 == delay_high(*cfg),
        r.0 <= r.1,
{
    let latency: u64 = cfg.latency_ms;
    if cfg.chaos {
        let half: u64 = latency / 2;
        let high: u64 = if half <= u64::MAX - latency {
            latency + half
        } else {
            u64::MAX
        };
        (latency - half, high)
    } else {
        (latency, latency)
    }
}

/// The drop decision for one chunk; a dropped chunk is counted.
///
/// The chance is the configured one, or under chaos one drawn around it, and
/// the chunk is dropped when a draw among the hundred percentages falls
/// below the chance.
pub fn apply_drop(cfg: &ShapingConfig, stats: &mut Stats) -> (dropped: bool)
    requires
        cfg.wf(),
    ensures
        exists|chance: int, roll: int|
            drop_low(*cfg) <= chance <= drop_high(*cfg) && 0 <= roll < 100 && dropped == #[trigger] drops(
                chance,
                roll,
            ),
        cfg.drop_pct == 0 ==> !dropped,
        cfg.drop_pct == 100 ==> dropped,
        final(stats).packets_dropped == if dropped {
            saturating_sum(old(stats).packets_dropped, 1)
        } else {
            old(stats).packets_dropped
        },
        final(stats).bytes_delayed == old(stats).bytes_delayed,
        final(stats).status_message == old(stats).status_message,
{
    let (low, high) = drop_range(cfg);
    let chance: u64 = if low < high {
        random_between(low, high)
    } else {
        low
    };
    let roll: u64 = random_between(0, 99);
    let dropped = chunk_dropped(chance, roll);
    assert(dropped == drops(chance as int, roll as int));
    if dropped {
        stats.record_drop();
    }
    dropped
}

/// The delay for one chunk of `len` bytes that is to be forwarded, in
/// milliseconds; the chunk's bytes are counted as delayed.
///
/// The delay is the configured latency, or under chaos one drawn around it.
pub fn apply_delay(cfg: &ShapingConfig, stats: &mut Stats, len: u64) -> (delay_ms: u64)
    ensures
        delay_low(*cfg) <= delay_ms <= delay_high(*cfg),
        !cfg.chaos ==> delay_ms == cfg.latency_ms,
        final(stats).bytes_delayed == saturating_sum(old(stats).bytes_delayed, len),
        final(stats).packets_dropped == old(stats).packets_dropped,
        final(stats).status_message == old(stats).status_message,
{
    let (low, high) = delay_range(cfg);
    let delay_ms: u64 = if low < high {
        random_between(low, high)
    } else {
        low
    };
    stats.record_delay(len);
    delay_ms
}

/// How long a chunk of `len` bytes, held for `elapsed_ms` milliseconds so
/// far, still has to wait before it may be forwarded under the bandwidth cap.
pub fn apply_bandwidth(cfg: &ShapingConfig, len: u64, elapsed_ms: u64) -> (wait_ms: u64)
    requires
        cfg.wf(),
    ensures
        wait_ms == throttle_wait(len, cfg.bandwidth_kbps, elapsed_ms),
{
    let kbps: u128 = cfg.bandwidth_kbps as u128;
    let bits: u128 = 8 * (len as u128);
    let least: u128 = (bits + kbps - 1) / kbps;
    if least <= elapsed_ms as u128 {
        0
    } else {
        let rest: u128 = least - elapsed_ms as u128;
        if rest > u64::MAX as u128 {
            u64::MAX
        } else {
            rest as u64
        }
    }
}

/// A chunk that was forwarded: its size and how long it had been held when
/// the bandwidth cap was applied to it.
pub struct Forwarded {
    pub len: u64,
    pub elapsed_ms: u64,
}

/// The time that a forwarded chunk occupies its pipe: the time it had been
/// held, and the wait that the bandwidth cap added.
pub open spec fn time_occupied(chunk: Forwarded, kbps: u64) -> int {
    chunk.elapsed_ms + throttle_wait(chunk.len, kbps, chunk.elapsed_ms)
}

/// The time that a run of forwarded chunks occupies its pipe.
pub open spec fn total_time(chunks: Seq<Forwarded>, kbps: u64) -> int
    decreases chunks.len(),
{
    if chunks.len() == 0 {
        0
    } else {
        total_time(chunks.drop_last(), kbps) + time_occupied(chunks.last(), kbps)
    }
}

/// The bytes of a run of forwarded chunks.
pub open spec fn total_bytes(chunks: Seq<Forwarded>) -> int
    decreases chunks.len(),
{
    if chunks.len() == 0 {
        0
    } else {
        total_bytes(chunks.drop_last()) + chunks.last().len
    }
}

/// Throttle lower bound: chunks of `S` bytes in all take at least
/// `S * 8 / kbps` milliseconds to forward, whatever their sizes, as long as
/// no single wait exceeds what 64 bits hold.
pub proof fn lemma_throttle_lower_bound(chunks: Seq<Forwarded>, kbps: u64)
    requires
        kbps >= 1,
        forall|i: int|
            0 <= i < chunks.len() ==> min_duration_ms((#[trigger] chunks[i]).len, kbps)
                - chunks[i].elapsed_ms <= u64::MAX,
    ensures
        total_time(chunks, kbps) * kbps >= 8 * total_bytes(chunks),
        total_time(chunks, kbps) >= (8 * total_bytes(chunks)) / (kbps as int),
    decreases chunks.len(),
{
    if chunks.len() > 0 {
        let rest = chunks.drop_last();
        let c = chunks.last();
        assert forall|i: int| 0 <= i < rest.len() implies min_duration_ms(
            (#[trigger] rest[i]).len,
            kbps,
        ) - rest[i].elapsed_ms <= u64::MAX by {
            assert(rest[i] == chunks[i]);
        }
        lemma_throttle_lower_bound(rest, kbps);
        lemma_min_duration_covers(c.len, kbps);
        let t = total_time(rest, kbps);
        let o = time_occupied(c, kbps);
        let k = kbps as int;
        assert(o >= min_duration_ms(c.len, kbps));
        assert(o * k >= 8 * c.len) by (nonlinear_arith)
            requires
                o >= min_duration_ms(c.len, kbps),
                min_duration_ms(c.len, kbps) * k >= 8 * c.len,
                k >= 1,
        ;
        assert((t + o) * k == t * k + o * k) by (nonlinear_arith);
    }
    let total = total_time(chunks, kbps);
    let bits = 8 * total_bytes(chunks);
    let k = kbps as int;
    assert(total >= bits / k) by (nonlinear_arith)
        requires
            total * k >= bits,
            k >= 1,
    ;
}

/// The least duration of a chunk, at the link's rate, carries all its bits.
pub proof fn lemma_min_duration_covers(len: u64, kbps: u64)
    requires
        kbps >= 1,
    ensures
        min_duration_ms(len, kbps) * kbps >= 8 * len,
{
    let a = 8 * len;
    let k = kbps as int;
    assert(((a + k - 1) / k) * k >= a) by (nonlinear_arith)
        requires
            k >= 1,
            a >= 0,
    ;
}

/// With a drop chance of zero no chunk is ever dropped, whatever is drawn and
/// with or without chaos.
pub proof fn lemma_zero_chance_never_drops(cfg: ShapingConfig, chance: int, roll: int)
    requires
        cfg.wf(),
        cfg.drop_pct == 0,
        drop_low(cfg) <= chance <= drop_high(cfg),
        0 <= roll < 100,
    ensures
        !drops(chance, roll),
{
}

/// With a drop chance of a hundred every chunk is dropped, whatever is drawn
/// and with or without chaos.
pub proof fn lemma_full_chance_always_drops(cfg: ShapingConfig, chance: int, roll: int)
    requires
        cfg.wf(),
        cfg.drop_pct == 100,
        drop_low(cfg) <= chance <= drop_high(cfg),
        0 <= roll < 100,
    ensures
        drops(chance, roll),
{
}

/// A change of the latency shows in the very next delay: without chaos the
/// delay is the latency of the configuration at hand, so a lower latency
/// gives a shorter delay; and with or without chaos a latency of zero gives
/// no delay at all, while a positive latency gives a positive one.
pub proof fn lemma_delay_follows_latency(
    before: ShapingConfig,
    after: ShapingConfig,
    delay_before: int,
    delay_after: int,
)
    requires
        delay_low(before) <= delay_before <= delay_high(before),
        delay_low(after) <= delay_after <= delay_high(after),
    ensures
        !before.chaos && !after.chaos && after.latency_ms < before.latency_ms ==> delay_after
            < delay_before,
        after.latency_ms == 0 ==> delay_after == 0,
        after.latency_ms == 0 && before.latency_ms > 0 ==> delay_after < delay_before,
{
}

} // verus!
