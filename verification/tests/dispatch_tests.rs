use hyperspeedcube::chain::{ConsumptionResult, DispatchPass, Reply};
use hyperspeedcube::dispatch::{
    Dispatched, EventDispatcher, FramePlan, FrameStep, HostCommand, Phase,
};
use hyperspeedcube::event::{InputEvent, SurfaceSize, ThemeMode};
use hyperspeedcube::surface::{AcquireOutcome, PresentableTarget, SurfaceCommand, SurfaceState};
use hyperspeedcube::texture::{CompositedTexture, TextureId};
use hyperspeedcube::theme::{StyleOverrides, StyleProfile};

const INTERVAL: u64 = 16;

fn dispatcher() -> EventDispatcher {
    EventDispatcher::new(0, INTERVAL, 800, 600, 1, ThemeMode::Dark)
}

fn send(dispatcher: &mut EventDispatcher, event: InputEvent) -> Dispatched {
    let mut pass = DispatchPass::begin(event, false);
    while pass.pending().is_some() {
        pass.answer(Reply { claimed: false, repaint: false });
    }
    dispatcher.dispatch(&pass)
}

fn target() -> PresentableTarget {
    PresentableTarget { width: 800, height: 600, scale: 1 }
}

#[test]
fn new_loop_is_idle_and_configured() {
    let dispatcher = dispatcher();
    assert_eq!(dispatcher.phase(), Phase::Idle);
    assert!(!dispatcher.exit_requested());
    assert_eq!(
        dispatcher.surface_state(),
        SurfaceState::Configured { width: 800, height: 600, scale: 1 }
    );
    assert_eq!(dispatcher.style().base, ThemeMode::Dark);
    assert_eq!(dispatcher.composited(), None);
    assert_eq!(dispatcher.clock().target_interval, INTERVAL);
    assert_eq!(dispatcher.frame_rate(), 0);
}

#[test]
fn full_frame_goes_through_every_step_in_order() {
    let mut dispatcher = dispatcher();
    let id = dispatcher.register(TextureId::User(0), 0);
    assert_eq!(
        dispatcher.begin_frame(0, INTERVAL, false),
        FramePlan { save_preferences: false, step: FrameStep::Acquire }
    );
    assert_eq!(dispatcher.phase(), Phase::AwaitingSurface);
    assert_eq!(dispatcher.surface_acquired(Ok(())), FrameStep::Draw { target: target() });
    assert_eq!(dispatcher.phase(), Phase::AwaitingContent);
    assert_eq!(
        dispatcher.content_drawn(Some(42)),
        FrameStep::Build { refreshed: Some(CompositedTexture { id, view: 42 }) }
    );
    assert_eq!(dispatcher.phase(), Phase::AwaitingUi);
    assert_eq!(dispatcher.ui_built(1, 0), FrameStep::Present);
    assert_eq!(dispatcher.phase(), Phase::Idle);
    assert_eq!(dispatcher.composited(), Some(CompositedTexture { id, view: 42 }));
    assert_eq!(dispatcher.clock().next_due, INTERVAL);
}

#[test]
fn iteration_before_the_due_time_rests() {
    let mut dispatcher = dispatcher();
    assert_eq!(dispatcher.begin_frame(0, INTERVAL, false).step, FrameStep::Acquire);
    dispatcher.surface_acquired(Ok(()));
    dispatcher.content_drawn(None);
    dispatcher.ui_built(0, 0);
    assert_eq!(
        dispatcher.begin_frame(5, INTERVAL, true),
        FramePlan { save_preferences: true, step: FrameStep::Rest }
    );
    assert_eq!(dispatcher.phase(), Phase::Idle);
    assert_eq!(dispatcher.begin_frame(16, INTERVAL, false).step, FrameStep::Acquire);
}

#[test]
fn preferences_are_saved_exactly_when_they_ask_for_it() {
    let mut dispatcher = dispatcher();
    assert!(dispatcher.begin_frame(0, INTERVAL, true).save_preferences);
    assert!(!dispatcher.begin_frame(1, INTERVAL, false).save_preferences);
}

#[test]
fn frame_duration_is_taken_at_every_iteration() {
    let mut dispatcher = dispatcher();
    dispatcher.begin_frame(0, 40, false);
    assert_eq!(dispatcher.clock().target_interval, 40);
    assert_eq!(dispatcher.clock().next_due, 40);
}

#[test]
fn unchanged_content_updates_no_texture_and_asks_for_no_repaint() {
    let mut dispatcher = dispatcher();
    let id = dispatcher.register(TextureId::User(0), 7);
    dispatcher.begin_frame(0, INTERVAL, false);
    dispatcher.surface_acquired(Ok(()));
    assert_eq!(dispatcher.content_drawn(None), FrameStep::Build { refreshed: None });
    assert_eq!(dispatcher.composited(), Some(CompositedTexture { id, view: 7 }));
    assert_eq!(dispatcher.ui_built(0, 1_000_000), FrameStep::Present);
    assert_eq!(dispatcher.begin_frame(100, INTERVAL, false).step, FrameStep::Rest);
}

#[test]
fn new_content_asks_for_one_more_frame() {
    let mut dispatcher = dispatcher();
    dispatcher.register(TextureId::User(0), 7);
    dispatcher.begin_frame(0, INTERVAL, false);
    dispatcher.surface_acquired(Ok(()));
    dispatcher.content_drawn(Some(8));
    dispatcher.ui_built(0, 1_000_000);
    assert_eq!(dispatcher.begin_frame(100, INTERVAL, false).step, FrameStep::Acquire);
    dispatcher.surface_acquired(Ok(()));
    dispatcher.content_drawn(None);
    dispatcher.ui_built(100, 1_000_000);
    assert_eq!(dispatcher.begin_frame(200, INTERVAL, false).step, FrameStep::Rest);
}

#[test]
fn new_content_without_a_registered_texture_updates_nothing() {
    let mut dispatcher = dispatcher();
    dispatcher.begin_frame(0, INTERVAL, false);
    dispatcher.surface_acquired(Ok(()));
    assert_eq!(dispatcher.content_drawn(Some(8)), FrameStep::Build { refreshed: None });
    assert_eq!(dispatcher.composited(), None);
    dispatcher.ui_built(0, 1_000_000);
    assert_eq!(dispatcher.begin_frame(100, INTERVAL, false).step, FrameStep::Rest);
}

#[test]
fn identifier_is_stable_across_frames_and_registrations() {
    let mut dispatcher = dispatcher();
    let id = dispatcher.register(TextureId::User(5), 0);
    for frame in 0..50u64 {
        let now = frame * INTERVAL;
        assert_eq!(dispatcher.begin_frame(now, INTERVAL, false).step, FrameStep::Acquire);
        dispatcher.surface_acquired(Ok(()));
        assert_eq!(
            dispatcher.content_drawn(Some(frame + 1)),
            FrameStep::Build { refreshed: Some(CompositedTexture { id, view: frame + 1 }) }
        );
        dispatcher.ui_built(now, 0);
        assert_eq!(dispatcher.register(TextureId::User(99), 0), id);
    }
    assert_eq!(dispatcher.composited(), Some(CompositedTexture { id, view: 50 }));
}

#[test]
fn outdated_lost_ready_reconfigures_once_and_presents_once_in_the_loop() {
    let mut dispatcher = dispatcher();
    let reports = [Err(AcquireOutcome::Outdated), Err(AcquireOutcome::Lost), Ok(())];
    let mut reconfigured = Vec::new();
    let mut presented = Vec::new();
    for (attempt, reported) in reports.iter().enumerate() {
        let now = attempt as u64 * INTERVAL;
        assert_eq!(dispatcher.begin_frame(now, INTERVAL, false).step, FrameStep::Acquire);
        match dispatcher.surface_acquired(*reported) {
            FrameStep::Dropped { command: SurfaceCommand::Configure { width, height }, .. } => {
                reconfigured.push((attempt, width, height));
            }
            FrameStep::Dropped { command: SurfaceCommand::Idle, .. } => {}
            FrameStep::Draw { .. } => {
                dispatcher.content_drawn(None);
                if dispatcher.ui_built(now, 0) == FrameStep::Present {
                    presented.push(attempt);
                }
            }
            other => panic!("unexpected step {:?}", other),
        }
        assert_eq!(dispatcher.phase(), Phase::Idle);
    }
    assert_eq!(reconfigured, vec![(1, 800, 600)]);
    assert_eq!(presented, vec![2]);
    assert!(!dispatcher.exit_requested());
}

#[test]
fn dropped_frame_names_its_cause_and_is_retried() {
    let mut dispatcher = dispatcher();
    dispatcher.begin_frame(0, INTERVAL, false);
    assert_eq!(
        dispatcher.surface_acquired(Err(AcquireOutcome::Other)),
        FrameStep::Dropped { cause: AcquireOutcome::Other, command: SurfaceCommand::Idle }
    );
    assert_eq!(dispatcher.begin_frame(1, INTERVAL, false).step, FrameStep::Rest);
    assert_eq!(dispatcher.begin_frame(INTERVAL, INTERVAL, false).step, FrameStep::Acquire);
}

#[test]
fn out_of_memory_shuts_the_loop_down_within_the_iteration() {
    let mut dispatcher = dispatcher();
    dispatcher.register(TextureId::User(0), 3);
    dispatcher.begin_frame(0, INTERVAL, false);
    assert_eq!(dispatcher.surface_acquired(Err(AcquireOutcome::OutOfMemory)), FrameStep::Exit);
    assert!(dispatcher.exit_requested());
    assert_eq!(dispatcher.phase(), Phase::Exiting);
    assert_eq!(dispatcher.surface_state(), SurfaceState::Fatal);

    assert_eq!(dispatcher.content_drawn(Some(9)), FrameStep::Exit);
    assert_eq!(dispatcher.ui_built(1, 0), FrameStep::Exit);
    assert_eq!(dispatcher.surface_acquired(Ok(())), FrameStep::Exit);
    assert_eq!(dispatcher.begin_frame(100, INTERVAL, false).step, FrameStep::Exit);
    assert_eq!(
        send(&mut dispatcher, InputEvent::Resized { width: 1, height: 1 }).command,
        HostCommand::Exit
    );
    assert_eq!(dispatcher.surface_state(), SurfaceState::Fatal);
    assert_eq!(
        dispatcher.composited(),
        Some(CompositedTexture { id: TextureId::User(0), view: 3 })
    );
    assert_eq!(dispatcher.phase(), Phase::Exiting);
}

#[test]
fn reports_out_of_turn_change_nothing() {
    let mut dispatcher = dispatcher();
    assert_eq!(dispatcher.surface_acquired(Ok(())), FrameStep::Rest);
    assert_eq!(dispatcher.content_drawn(Some(1)), FrameStep::Rest);
    assert_eq!(dispatcher.ui_built(0, 0), FrameStep::Rest);
    assert_eq!(dispatcher.phase(), Phase::Idle);
    dispatcher.begin_frame(0, INTERVAL, false);
    assert_eq!(dispatcher.ui_built(0, 0), FrameStep::Rest);
    assert_eq!(dispatcher.content_drawn(None), FrameStep::Rest);
    assert_eq!(dispatcher.phase(), Phase::AwaitingSurface);
    assert_eq!(dispatcher.surface_acquired(Err(AcquireOutcome::OutOfMemory)), FrameStep::Exit);
}

#[test]
fn one_iteration_presents_one_frame_at_most() {
    let mut dispatcher = dispatcher();
    dispatcher.begin_frame(0, INTERVAL, false);
    dispatcher.surface_acquired(Ok(()));
    dispatcher.content_drawn(None);
    let mut presented = 0;
    for _ in 0..5 {
        if dispatcher.ui_built(0, 0) == FrameStep::Present {
            presented += 1;
        }
        dispatcher.surface_acquired(Ok(()));
        dispatcher.content_drawn(Some(1));
    }
    assert_eq!(presented, 1);
}

#[test]
fn beginning_an_iteration_gives_up_the_frame_under_way() {
    let mut dispatcher = dispatcher();
    dispatcher.begin_frame(0, INTERVAL, false);
    dispatcher.surface_acquired(Ok(()));
    assert_eq!(dispatcher.phase(), Phase::AwaitingContent);
    assert_eq!(dispatcher.begin_frame(1, INTERVAL, false).step, FrameStep::Rest);
    assert_eq!(dispatcher.phase(), Phase::Idle);
    assert_eq!(dispatcher.content_drawn(None), FrameStep::Rest);
}

#[test]
fn resize_is_absorbed_by_the_surface() {
    let mut dispatcher = dispatcher();
    let done = send(&mut dispatcher, InputEvent::Resized { width: 1024, height: 768 });
    assert_eq!(
        done,
        Dispatched {
            result: ConsumptionResult { claimed: false, needs_repaint: true },
            command: HostCommand::ConfigureSurface { width: 1024, height: 768 },
        }
    );
    assert_eq!(
        dispatcher.surface_state(),
        SurfaceState::Configured { width: 1024, height: 768, scale: 1 }
    );
    let again = send(&mut dispatcher, InputEvent::Resized { width: 1024, height: 768 });
    assert_eq!(again.command, HostCommand::Nothing);
}

#[test]
fn scale_change_sets_the_scale_and_the_size() {
    let mut dispatcher = dispatcher();
    let done = send(
        &mut dispatcher,
        InputEvent::ScaleFactorChanged {
            factor: 0x4000_0000,
            new_size: SurfaceSize { width: 1600, height: 1200 },
        },
    );
    assert_eq!(done.command, HostCommand::ConfigureSurface { width: 1600, height: 1200 });
    assert_eq!(
        dispatcher.surface_state(),
        SurfaceState::Configured { width: 1600, height: 1200, scale: 0x4000_0000 }
    );
}

#[test]
fn resize_events_converge_on_the_last_size() {
    let mut dispatcher = dispatcher();
    let sizes = [(10, 10), (20, 5), (10, 10), (300, 200), (300, 200), (64, 48)];
    for (width, height) in sizes {
        send(&mut dispatcher, InputEvent::Resized { width, height });
    }
    send(
        &mut dispatcher,
        InputEvent::ScaleFactorChanged { factor: 2, new_size: SurfaceSize { width: 31, height: 17 } },
    );
    assert_eq!(
        dispatcher.surface_state(),
        SurfaceState::Configured { width: 31, height: 17, scale: 2 }
    );
}

#[test]
fn theme_change_applies_the_profile_of_the_new_mode() {
    let mut dispatcher = dispatcher();
    let done = send(&mut dispatcher, InputEvent::ThemeChanged { mode: ThemeMode::Light });
    let light = StyleProfile {
        base: ThemeMode::Light,
        overrides: StyleOverrides { stroke_width_percent: 200, interact_width_percent: 120 },
    };
    assert_eq!(done.command, HostCommand::ApplyStyle { profile: light });
    assert_eq!(dispatcher.style(), light);
    let done = send(&mut dispatcher, InputEvent::ThemeChanged { mode: ThemeMode::Dark });
    assert_eq!(
        done.command,
        HostCommand::ApplyStyle { profile: StyleProfile { base: ThemeMode::Dark, ..light } }
    );
}

#[test]
fn redraw_request_starts_an_iteration() {
    let mut dispatcher = dispatcher();
    let done = send(&mut dispatcher, InputEvent::RedrawRequested);
    assert_eq!(
        done,
        Dispatched {
            result: ConsumptionResult { claimed: false, needs_repaint: false },
            command: HostCommand::Redraw,
        }
    );
}

#[test]
fn claimed_event_reports_the_claim_and_gives_the_host_nothing_to_do() {
    let mut dispatcher = dispatcher();
    let mut pass = DispatchPass::begin(InputEvent::Other { kind: 3 }, true);
    pass.answer(Reply { claimed: true, repaint: false });
    assert_eq!(
        dispatcher.dispatch(&pass),
        Dispatched {
            result: ConsumptionResult { claimed: true, needs_repaint: false },
            command: HostCommand::Nothing,
        }
    );
}

#[test]
fn repaint_wish_of_an_event_reaches_the_scheduler() {
    let mut dispatcher = dispatcher();
    dispatcher.begin_frame(0, INTERVAL, false);
    dispatcher.surface_acquired(Ok(()));
    dispatcher.content_drawn(None);
    dispatcher.ui_built(0, 1_000_000);
    assert_eq!(dispatcher.begin_frame(50, INTERVAL, false).step, FrameStep::Rest);
    send(&mut dispatcher, InputEvent::ApplicationEvent { payload: 1 });
    assert_eq!(dispatcher.begin_frame(60, INTERVAL, false).step, FrameStep::Rest);
    send(&mut dispatcher, InputEvent::KeyPress { code: 1, pressed: false });
    assert_eq!(dispatcher.begin_frame(70, INTERVAL, false).step, FrameStep::Acquire);
}

#[test]
fn release_unused_never_frees_the_content_texture() {
    let mut dispatcher = dispatcher();
    dispatcher.register(TextureId::User(0), 1);
    let freed = vec![TextureId::Managed(2), TextureId::User(0), TextureId::Managed(3)];
    assert_eq!(
        dispatcher.release_unused(&freed),
        vec![TextureId::Managed(2), TextureId::Managed(3)]
    );
}

#[test]
fn frame_rate_counts_the_frames_of_a_second() {
    let mut dispatcher = dispatcher();
    let interval = 250_000_000;
    for frame in 0..5u64 {
        let now = frame * interval;
        assert_eq!(dispatcher.begin_frame(now, interval, false).step, FrameStep::Acquire);
        dispatcher.surface_acquired(Ok(()));
        dispatcher.content_drawn(None);
        dispatcher.ui_built(now, 0);
    }
    assert_eq!(dispatcher.frame_rate(), 5);
    assert_eq!(dispatcher.clock().window_start, 1_000_000_000);
}
