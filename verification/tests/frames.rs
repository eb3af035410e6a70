use lunamate_ui::desktop_pet::frame_loop::{
    frame_pacer, wait_for_frame_or_rate_change, FrameLoop, FramePacer, FramePlan, FrameRate,
    FrameStep, FrameWaitResult, PacerChange,
};

fn timed() -> FrameRate {
    FrameRate { limit: Some(30), allows_degradation: true, follows_display: false }
}

fn display() -> FrameRate {
    FrameRate { limit: None, allows_degradation: false, follows_display: true }
}

#[test]
fn pacer_follows_the_frame_rate() {
    assert_eq!(
        frame_pacer(timed()),
        FramePacer { target_fps: Some(30), allow_degradation: true }
    );
    assert_eq!(
        frame_pacer(display()),
        FramePacer { target_fps: None, allow_degradation: false }
    );
}

#[test]
fn new_frame_rate_goes_before_a_frame() {
    assert_eq!(
        wait_for_frame_or_rate_change(Some(true), Some(true)),
        Some(FrameWaitResult::FrameRateChanged)
    );
    assert_eq!(
        wait_for_frame_or_rate_change(Some(false), Some(true)),
        Some(FrameWaitResult::Closed)
    );
    assert_eq!(
        wait_for_frame_or_rate_change(None, Some(true)),
        Some(FrameWaitResult::FrameReady)
    );
    assert_eq!(
        wait_for_frame_or_rate_change(None, Some(false)),
        Some(FrameWaitResult::Closed)
    );
    assert_eq!(wait_for_frame_or_rate_change(None, None), None);
}

#[test]
fn loop_waits_for_what_makes_the_next_frame_due() {
    let mut state = FrameLoop::new(1, 4, true);
    let plan = state.look(Some((true, 4)), timed());
    assert_eq!(plan.step, FrameStep::AwaitTimer);
    assert_eq!(plan.pacer, PacerChange::Keep);
    assert_eq!(state.look(Some((true, 4)), display()).step, FrameStep::AwaitDisplay);
    let mut idle = FrameLoop::new(1, 4, false);
    assert_eq!(idle.look(Some((true, 4)), timed()).step, FrameStep::AwaitInput);
    assert_eq!(idle.look(None, timed()).step, FrameStep::Stop);
}

#[test]
fn time_spent_hidden_does_not_reach_the_model() {
    let mut state = FrameLoop::new(1, 4, false);
    let plan = state.look(Some((false, 5)), timed());
    assert_eq!(plan.step, FrameStep::AwaitRateChange);
    assert_eq!(plan.pacer, PacerChange::ResetAfterIdle);
    assert_eq!(state.after_hidden_wait(true).step, FrameStep::Restart);
    assert_eq!(state.after_hidden_wait(false).step, FrameStep::Stop);
    assert_eq!(state.look(Some((true, 6)), timed()).step, FrameStep::AwaitTimer);
    let plan = state.frame_due(FrameWaitResult::FrameReady);
    assert_eq!(plan.step, FrameStep::Render { zero_delta: true });
    let again = state.frame_due(FrameWaitResult::FrameReady);
    assert_eq!(again.step, FrameStep::Render { zero_delta: false });
}

#[test]
fn input_is_kept_until_a_frame_is_rendered() {
    let mut state = FrameLoop::new(1, 4, false);
    state.look(Some((true, 4)), display());
    let plan = state.input_arrived(FrameWaitResult::FrameReady, display());
    assert_eq!(plan.step, FrameStep::AwaitDisplay);
    let plan = state.frame_due(FrameWaitResult::FrameRateChanged);
    assert_eq!(
        plan,
        FramePlan { pacer: PacerChange::Rebuild, target: None, step: FrameStep::Restart }
    );
    assert_eq!(state.look(Some((true, 4)), timed()).step, FrameStep::AwaitTimer);
    assert_eq!(state.display_armed(true), FrameStep::AwaitDisplay);
    assert_eq!(state.display_armed(false), FrameStep::Stop);
}

#[test]
fn next_frame_is_due_for_motion_commands_or_input() {
    let mut state = FrameLoop::new(1, 4, true);
    assert!(!state.frame_rendered(false, 3, 8, false));
    assert!(!state.needs_next_frame);
    assert!(state.frame_rendered(true, 0, 8, false));
    assert!(state.frame_rendered(false, 8, 8, false));
    assert!(state.frame_rendered(false, 0, 8, true));
}

#[test]
fn closed_channel_ends_the_loop() {
    let mut state = FrameLoop::new(1, 4, true);
    assert_eq!(state.frame_due(FrameWaitResult::Closed).step, FrameStep::Stop);
    assert_eq!(state.input_arrived(FrameWaitResult::Closed, timed()).step, FrameStep::Stop);
    assert_eq!(
        state.input_arrived(FrameWaitResult::FrameRateChanged, timed()).pacer,
        PacerChange::Rebuild
    );
}
