use lag_sim::config::ShapingConfig;
use lag_sim::pipe::{pipe_start, pipe_step, PipeAction, PipeEvent, PipeState};
use lag_sim::stats::Stats;

fn config(latency_ms: u64, drop_pct: u8, bandwidth_kbps: u64) -> ShapingConfig {
    ShapingConfig { latency_ms, drop_pct, bandwidth_kbps, chaos: false }
}

#[test]
fn pipe_starts_with_a_read() {
    assert_eq!(pipe_start(), (PipeState::Reading, PipeAction::Read));
}

#[test]
fn chunk_goes_through_delay_throttle_and_write() {
    let cfg = config(120, 0, 256);
    let mut stats = Stats::new();
    let (state, action) =
        pipe_step(PipeState::Reading, PipeEvent::Read { len: 8192 }, &cfg, &mut stats);
    assert_eq!(state, PipeState::Delaying { len: 8192 });
    assert_eq!(action, PipeAction::Sleep { ms: 120 });
    assert_eq!(stats.bytes_delayed, 8192);
    let (state, action) = pipe_step(state, PipeEvent::Slept { elapsed_ms: 120 }, &cfg, &mut stats);
    assert_eq!(state, PipeState::Throttling { len: 8192 });
    assert_eq!(action, PipeAction::Sleep { ms: 136 });
    let (state, action) = pipe_step(state, PipeEvent::Slept { elapsed_ms: 256 }, &cfg, &mut stats);
    assert_eq!(state, PipeState::Writing { len: 8192 });
    assert_eq!(action, PipeAction::Write { len: 8192 });
    let (state, action) = pipe_step(state, PipeEvent::Written, &cfg, &mut stats);
    assert_eq!(state, PipeState::Reading);
    assert_eq!(action, PipeAction::Read);
    assert_eq!(stats.bytes_delayed, 8192);
    assert_eq!(stats.packets_dropped, 0);
}

#[test]
fn end_of_stream_and_errors_end_the_pipe() {
    let cfg = config(0, 0, 256);
    let mut stats = Stats::new();
    let closed = (PipeState::Closed, PipeAction::Stop);
    assert_eq!(pipe_step(PipeState::Reading, PipeEvent::Read { len: 0 }, &cfg, &mut stats), closed);
    assert_eq!(pipe_step(PipeState::Reading, PipeEvent::ReadFailed, &cfg, &mut stats), closed);
    assert_eq!(
        pipe_step(PipeState::Writing { len: 5 }, PipeEvent::WriteFailed, &cfg, &mut stats),
        closed
    );
    assert_eq!(pipe_step(PipeState::Closed, PipeEvent::Written, &cfg, &mut stats), closed);
    assert_eq!(pipe_step(PipeState::Reading, PipeEvent::Written, &cfg, &mut stats), closed);
    assert_eq!(
        pipe_step(PipeState::Delaying { len: 5 }, PipeEvent::Read { len: 5 }, &cfg, &mut stats),
        closed
    );
    assert_eq!(stats.bytes_delayed, 0);
    assert_eq!(stats.packets_dropped, 0);
}

#[test]
fn full_drop_chance_forwards_no_byte() {
    let cfg = config(120, 100, 256);
    let mut stats = Stats::new();
    let mut state = PipeState::Reading;
    for n in 1..=1_000u64 {
        let (next, action) = pipe_step(state, PipeEvent::Read { len: 100 }, &cfg, &mut stats);
        assert_eq!(next, PipeState::Reading);
        assert_eq!(action, PipeAction::Read);
        assert_eq!(stats.packets_dropped, n);
        state = next;
    }
    assert_eq!(stats.bytes_delayed, 0);
}

#[test]
fn changed_latency_holds_for_the_next_chunk() {
    let mut stats = Stats::new();
    let (_, slow) =
        pipe_step(PipeState::Reading, PipeEvent::Read { len: 10 }, &config(100, 0, 256), &mut stats);
    let (_, fast) =
        pipe_step(PipeState::Reading, PipeEvent::Read { len: 10 }, &config(0, 0, 256), &mut stats);
    assert_eq!(slow, PipeAction::Sleep { ms: 100 });
    assert_eq!(fast, PipeAction::Sleep { ms: 0 });
}

#[test]
fn changed_bandwidth_holds_for_the_chunk_at_hand() {
    let mut stats = Stats::new();
    let state = PipeState::Delaying { len: 1000 };
    let (_, wide) =
        pipe_step(state, PipeEvent::Slept { elapsed_ms: 0 }, &config(0, 0, 8000), &mut stats);
    let (_, narrow) =
        pipe_step(state, PipeEvent::Slept { elapsed_ms: 0 }, &config(0, 0, 8), &mut stats);
    assert_eq!(wide, PipeAction::Sleep { ms: 1 });
    assert_eq!(narrow, PipeAction::Sleep { ms: 1000 });
}
