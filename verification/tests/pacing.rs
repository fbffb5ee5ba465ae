use rust_embedded_wgpu::kms::pacing::{FrameLoop, LoopAction, LoopEvent};

const MILLI: u128 = 1_000_000;

type Frames = FrameLoop<&'static str>;

fn clock(now: u128) -> LoopEvent<&'static str> {
    LoopEvent::Clock { now }
}

/// A loop in which a frame is due.
fn due() -> Frames {
    let mut frames = Frames::frame_loop(0);
    frames.step(clock(16 * MILLI));
    frames
}

/// A loop in which a frame was begun with this encoder.
fn begun(encoder: u64) -> Frames {
    let mut frames = due();
    frames.step(LoopEvent::Begun { encoder });
    frames
}

#[test]
fn frames_are_sixteen_milliseconds_apart() {
    let mut frames = Frames::frame_loop(0);
    let mut rendered = Vec::new();
    for now in [0, 16 * MILLI - 1, 16 * MILLI, 20 * MILLI, 32 * MILLI - 1, 50 * MILLI] {
        assert_eq!(frames.action(), LoopAction::ReadClock);
        frames.step(clock(now));
        if frames.action() == LoopAction::Begin {
            rendered.push(now);
            frames.step(LoopEvent::Begun { encoder: 1 });
            frames.step(LoopEvent::Succeeded);
            frames.step(LoopEvent::Succeeded);
        } else {
            assert_eq!(frames.action(), LoopAction::Sleep { millis: 1 });
            frames.step(LoopEvent::Succeeded);
        }
    }
    assert_eq!(rendered, [16 * MILLI, 50 * MILLI]);
    assert_eq!(frames.last, 50 * MILLI);
}

#[test]
fn a_clock_that_runs_backwards_stands_still() {
    let mut frames = Frames::frame_loop(100 * MILLI);
    frames.step(clock(0));
    assert_eq!(frames.action(), LoopAction::Sleep { millis: 1 });
    assert_eq!(frames.last, 100 * MILLI);
}

#[test]
fn a_frame_is_begun_rendered_and_ended() {
    let mut frames = due();
    assert_eq!(frames.action(), LoopAction::Begin);
    frames.step(LoopEvent::Begun { encoder: 7 });
    assert_eq!(frames.action(), LoopAction::Render { encoder: 7 });
    frames.step(LoopEvent::Succeeded);
    assert_eq!(frames.action(), LoopAction::End { encoder: 7 });
    frames.step(LoopEvent::Succeeded);
    assert_eq!(frames.action(), LoopAction::ReadClock);
}

#[test]
fn a_frame_that_is_not_rendered_is_not_ended() {
    let mut frames = begun(7);
    frames.step(LoopEvent::Failed { error: "render" });
    assert_eq!(frames.action(), LoopAction::Fail);
    for event in [LoopEvent::Succeeded, clock(90 * MILLI), LoopEvent::Failed { error: "other" }] {
        frames.step(event);
        assert_eq!(frames.action(), LoopAction::Fail);
    }
    assert_eq!(frames.into_error(), Some("render"));
}

#[test]
fn a_frame_that_cannot_be_ended_ends_the_loop() {
    let mut frames = begun(7);
    frames.step(LoopEvent::Succeeded);
    assert_eq!(begun(7).into_error(), None);
    frames.step(LoopEvent::Failed { error: "end" });
    assert_eq!(frames.action(), LoopAction::Fail);
    assert_eq!(frames.into_error(), Some("end"));
}

#[test]
fn what_answers_nothing_changes_nothing() {
    let mut frames = due();
    for event in [LoopEvent::Succeeded, clock(90 * MILLI), LoopEvent::Failed { error: "no" }] {
        frames.step(event);
        assert_eq!(frames.action(), LoopAction::Begin);
    }
    assert_eq!(frames.last, 16 * MILLI);
}
