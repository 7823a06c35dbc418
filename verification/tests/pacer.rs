use pix_win_loop::{Blend, FramePacer};

const MS: u64 = 1_000_000;

#[test]
fn new_pacer_is_empty() {
    let pacer = FramePacer::new(16 * MS, 250 * MS);
    assert_eq!(pacer.target_frame_time(), 16 * MS);
    assert_eq!(pacer.max_frame_time(), 250 * MS);
    assert_eq!(pacer.accumulated_time(), 0);
    assert!(!pacer.tick_due());
}

#[test]
fn fifty_ms_gives_three_ticks() {
    let mut pacer = FramePacer::new(16 * MS, 250 * MS);
    let ticks = pacer.advance(50 * MS);
    assert_eq!(ticks, 3);
    assert_eq!(pacer.accumulated_time(), 2 * MS);
    let blend = pacer.blending();
    assert_eq!(blend, Blend { numerator: 2 * MS, denominator: 16 * MS });
    let factor = blend.numerator as f64 / blend.denominator as f64;
    assert!((factor - 0.125).abs() < 1e-12);
}

#[test]
fn long_frame_is_clamped_to_max() {
    let mut pacer = FramePacer::new(16 * MS, 250 * MS);
    let ticks = pacer.advance(400 * MS);
    assert_eq!(ticks, 15);
    assert_eq!(pacer.accumulated_time(), 10 * MS);
}

#[test]
fn excess_over_max_changes_nothing() {
    for extra in [0u64, 1, 5 * MS, 1_000 * MS, u64::MAX - 250 * MS] {
        let mut exact = FramePacer::new(16 * MS, 250 * MS);
        let mut over = FramePacer::new(16 * MS, 250 * MS);
        let a = exact.advance(250 * MS);
        let b = over.advance(250 * MS + extra);
        assert_eq!(a, b);
        assert_eq!(exact.accumulated_time(), over.accumulated_time());
    }
}

#[test]
fn time_is_conserved_over_many_frames() {
    let target = 16 * MS;
    let max = 250 * MS;
    let frames = [3 * MS, 17 * MS, 0, 400 * MS, 16 * MS, 1, 33 * MS, 250 * MS, 7];
    let mut pacer = FramePacer::new(target, max);
    let mut ticks: u64 = 0;
    let mut admitted: u64 = 0;
    for elapsed in frames {
        ticks += pacer.advance(elapsed);
        admitted += elapsed.min(max);
        assert!(pacer.accumulated_time() <= target);
        assert_eq!(ticks * target + pacer.accumulated_time(), admitted);
    }
}

#[test]
fn leftover_is_kept_for_the_next_frame() {
    let mut pacer = FramePacer::new(16 * MS, 250 * MS);
    assert_eq!(pacer.advance(10 * MS), 0);
    assert_eq!(pacer.accumulated_time(), 10 * MS);
    assert_eq!(pacer.advance(10 * MS), 1);
    assert_eq!(pacer.accumulated_time(), 4 * MS);
}

#[test]
fn exact_multiple_leaves_one_whole_tick() {
    let mut pacer = FramePacer::new(16 * MS, 250 * MS);
    assert_eq!(pacer.advance(32 * MS), 1);
    assert_eq!(pacer.accumulated_time(), 16 * MS);
    assert!(!pacer.tick_due());
    assert_eq!(pacer.advance(1), 1);
    assert_eq!(pacer.accumulated_time(), 1);
}

#[test]
fn zero_elapsed_gives_no_tick() {
    let mut pacer = FramePacer::new(16 * MS, 250 * MS);
    assert_eq!(pacer.advance(0), 0);
    assert_eq!(pacer.accumulated_time(), 0);
}

#[test]
fn accumulate_then_tick_by_tick() {
    let mut pacer = FramePacer::new(10, 100);
    pacer.accumulate(35);
    assert_eq!(pacer.accumulated_time(), 35);
    assert!(pacer.tick_due());
    assert!(pacer.tick());
    assert_eq!(pacer.accumulated_time(), 25);
    assert!(pacer.tick());
    assert!(pacer.tick());
    assert_eq!(pacer.accumulated_time(), 5);
    assert!(!pacer.tick());
    assert_eq!(pacer.accumulated_time(), 5);
}

#[test]
fn accumulate_clamps_before_adding() {
    let mut pacer = FramePacer::new(10, 100);
    pacer.accumulate(1_000);
    assert_eq!(pacer.accumulated_time(), 100);
    pacer.accumulate(1_000);
    assert_eq!(pacer.accumulated_time(), 200);
}

#[test]
fn accumulate_stops_at_the_time_limit() {
    let mut pacer = FramePacer::new(u64::MAX, u64::MAX);
    pacer.accumulate(u64::MAX - 3);
    pacer.accumulate(10);
    assert_eq!(pacer.accumulated_time(), u64::MAX);
    assert!(!pacer.tick_due());
}

#[test]
fn consume_tick_empties_a_short_accumulator() {
    let mut pacer = FramePacer::new(10, 100);
    pacer.accumulate(4);
    pacer.consume_tick();
    assert_eq!(pacer.accumulated_time(), 0);
}

#[test]
fn new_target_holds_at_once_without_rescaling() {
    let mut pacer = FramePacer::new(16 * MS, 250 * MS);
    assert_eq!(pacer.advance(15 * MS), 0);
    pacer.set_target_frame_time(4 * MS);
    assert_eq!(pacer.target_frame_time(), 4 * MS);
    assert_eq!(pacer.accumulated_time(), 15 * MS);
    assert_eq!(pacer.advance(0), 3);
    assert_eq!(pacer.accumulated_time(), 3 * MS);
}

#[test]
fn new_max_holds_for_the_next_frame() {
    let mut pacer = FramePacer::new(16 * MS, 250 * MS);
    pacer.set_max_frame_time(20 * MS);
    assert_eq!(pacer.max_frame_time(), 20 * MS);
    assert_eq!(pacer.advance(400 * MS), 1);
    assert_eq!(pacer.accumulated_time(), 4 * MS);
}

#[test]
fn blending_is_leftover_over_target() {
    let mut pacer = FramePacer::new(8, 100);
    pacer.advance(21);
    let blend = pacer.blending();
    assert_eq!(blend.numerator, 5);
    assert_eq!(blend.denominator, 8);
    assert!(blend.numerator <= blend.denominator);
}
