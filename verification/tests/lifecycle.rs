use sndio::session::{run_write_loop, CloseGuard, Transfer, WriteOutcome, WriteStep};

/// A stand-in for the native layer that counts how often the close call
/// actually runs.
struct CloseCounter {
    closes: u32,
}

impl CloseCounter {
    fn new() -> CloseCounter {
        CloseCounter { closes: 0 }
    }

    fn close_if_granted(&mut self, guard: &mut CloseGuard) {
        if guard.release() {
            self.closes += 1;
        }
    }
}

#[test]
fn open_then_close_releases_exactly_once() {
    let mut native = CloseCounter::new();
    let mut guard = CloseGuard::new();
    native.close_if_granted(&mut guard);
    assert_eq!(native.closes, 1);
}

#[test]
fn double_release_closes_at_most_once() {
    let mut native = CloseCounter::new();
    let mut guard = CloseGuard::new();
    native.close_if_granted(&mut guard);
    native.close_if_granted(&mut guard);
    assert_eq!(native.closes, 1);
}

#[test]
fn many_releases_still_close_once() {
    let mut native = CloseCounter::new();
    let mut guard = CloseGuard::new();
    for _ in 0..5 {
        native.close_if_granted(&mut guard);
    }
    assert_eq!(native.closes, 1);
}

#[test]
fn write_loop_stops_on_zero_grant() {
    assert_eq!(run_write_loop(1024, 0), WriteOutcome::Stopped);
}

#[test]
fn write_loop_completes_one_byte_at_a_time() {
    assert_eq!(run_write_loop(1024, 1), WriteOutcome::Completed);
}

#[test]
fn write_loop_completes_on_almost_full_grants() {
    assert_eq!(run_write_loop(1024, 1023), WriteOutcome::Completed);
}

#[test]
fn write_loop_completes_in_one_full_grant() {
    assert_eq!(run_write_loop(1024, 1024), WriteOutcome::Completed);
}

#[test]
fn write_loop_on_empty_buffer_completes() {
    assert_eq!(run_write_loop(0, 0), WriteOutcome::Completed);
}

#[test]
fn partial_writes_are_resubmitted_until_done() {
    let mut t = Transfer::new(10);
    assert!(!t.is_done());
    assert_eq!(t.remaining(), 10);
    assert_eq!(t.record(4), WriteStep::Progress);
    assert_eq!(t.remaining(), 6);
    assert_eq!(t.record(6), WriteStep::Complete);
    assert!(t.is_done());
    assert_eq!(t.remaining(), 0);
}

#[test]
fn zero_return_with_bytes_left_is_a_stall() {
    let mut t = Transfer::new(3);
    assert_eq!(t.record(0), WriteStep::Stalled);
    assert_eq!(t.remaining(), 3);
}

#[test]
fn empty_transfer_is_done_immediately() {
    let t = Transfer::new(0);
    assert!(t.is_done());
}
