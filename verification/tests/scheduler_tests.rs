use metalshade::scheduler::{
    record_pass, AcquireOutcome, FrameScheduler, HostPhase, HostScheduler, PresentOutcome,
};

#[test]
fn host_cycle_counts_once() {
    // one full cycle advances the counter by exactly one, at the step that
    // completes the fence wait.
    let mut s = HostScheduler::new();
    assert_eq!(s.phase, HostPhase::Idle);
    assert_eq!(s.frame_count, 0);
    for _ in 0..4 {
        s.advance();
        assert_eq!(s.frame_count, 0);
    }
    assert_eq!(s.phase, HostPhase::WaitFence);
    s.advance();
    assert_eq!(s.phase, HostPhase::Idle);
    assert_eq!(s.frame_count, 1);
}

#[test]
fn completed_cycle_increments_counter_by_one() {
    let mut s = FrameScheduler::new();
    let image = s.begin_frame(AcquireOutcome::Acquired(0));
    assert_eq!(image, Some(0));
    assert_eq!(s.frame_count, 0);
    s.complete_frame(PresentOutcome::Presented);
    assert_eq!(s.frame_count, 1);
    assert!(!s.recreate_needed);
}

#[test]
fn out_of_date_acquire_skips_without_counting() {
    // a skipped (out-of-date) tick never advances the counter; it only
    // flags recreation.
    let mut s = FrameScheduler::new();
    let image = s.begin_frame(AcquireOutcome::OutOfDate);
    assert_eq!(image, None);
    assert_eq!(s.frame_count, 0);
    assert_eq!(s.slot, 0);
    assert!(s.recreate_needed);
    s.recreation_done();
    assert!(!s.recreate_needed);
    assert_eq!(s.frame_count, 0);
}

#[test]
fn slots_rotate_between_two_frames() {
    let mut s = FrameScheduler::new();
    s.begin_frame(AcquireOutcome::Acquired(0));
    s.complete_frame(PresentOutcome::Presented);
    assert_eq!(s.slot, 1);
    s.begin_frame(AcquireOutcome::Acquired(1));
    s.complete_frame(PresentOutcome::Presented);
    assert_eq!(s.slot, 0);
    assert_eq!(s.frame_count, 2);
}

#[test]
fn suboptimal_present_flags_recreation_but_counts() {
    let mut s = FrameScheduler::new();
    s.begin_frame(AcquireOutcome::Suboptimal(0));
    s.complete_frame(PresentOutcome::Suboptimal);
    assert_eq!(s.frame_count, 1);
    assert!(s.recreate_needed);

    let mut s = FrameScheduler::new();
    s.begin_frame(AcquireOutcome::Acquired(0));
    s.complete_frame(PresentOutcome::OutOfDate);
    assert_eq!(s.frame_count, 1);
    assert!(s.recreate_needed);
}

#[test]
fn pass_always_clears_and_draws_six_or_nothing() {
    let with_pipeline = record_pass(true);
    assert!(with_pipeline.cleared);
    assert_eq!(with_pipeline.draw_vertex_count, 6);
    let without = record_pass(false);
    assert!(without.cleared);
    assert_eq!(without.draw_vertex_count, 0);
}
