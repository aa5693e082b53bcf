use hyperspeedcube::event::{InputEvent, SurfaceSize, ThemeMode};
use hyperspeedcube::surface::{
    AcquireOutcome, Acquisition, PresentableTarget, SurfaceCommand, SurfaceManager, SurfaceState,
};

fn configured(width: u32, height: u32, scale: u32) -> SurfaceState {
    SurfaceState::Configured { width, height, scale }
}

#[test]
fn new_manager_is_configured() {
    let manager = SurfaceManager::new(800, 600, 7);
    assert_eq!(manager.state(), configured(800, 600, 7));
    assert!(!manager.is_fatal());
}

#[test]
fn reconfigure_takes_new_dimensions_and_tells_the_host() {
    let mut manager = SurfaceManager::new(800, 600, 7);
    let command = manager.reconfigure(1024, 768);
    assert_eq!(command, SurfaceCommand::Configure { width: 1024, height: 768 });
    assert_eq!(manager.state(), configured(1024, 768, 7));
}

#[test]
fn reconfigure_with_the_same_dimensions_is_a_noop() {
    let mut manager = SurfaceManager::new(800, 600, 7);
    assert_eq!(manager.reconfigure(800, 600), SurfaceCommand::Idle);
    assert_eq!(manager.state(), configured(800, 600, 7));
    assert_eq!(
        manager.reconfigure(640, 480),
        SurfaceCommand::Configure { width: 640, height: 480 }
    );
    assert_eq!(manager.reconfigure(640, 480), SurfaceCommand::Idle);
    assert_eq!(manager.state(), configured(640, 480, 7));
}

#[test]
fn reconfigure_with_one_changed_dimension_configures() {
    let mut manager = SurfaceManager::new(800, 600, 7);
    assert_eq!(
        manager.reconfigure(800, 601),
        SurfaceCommand::Configure { width: 800, height: 601 }
    );
    assert_eq!(
        manager.reconfigure(799, 601),
        SurfaceCommand::Configure { width: 799, height: 601 }
    );
}

#[test]
fn set_scale_factor_keeps_dimensions_and_is_idempotent() {
    let mut manager = SurfaceManager::new(800, 600, 1);
    manager.set_scale_factor(0x4000_0000);
    assert_eq!(manager.state(), configured(800, 600, 0x4000_0000));
    manager.set_scale_factor(0x4000_0000);
    assert_eq!(manager.state(), configured(800, 600, 0x4000_0000));
}

#[test]
fn absorb_handles_resize_and_scale_and_ignores_the_rest() {
    let mut manager = SurfaceManager::new(10, 10, 1);
    assert_eq!(
        manager.absorb(&InputEvent::Resized { width: 20, height: 30 }),
        SurfaceCommand::Configure { width: 20, height: 30 }
    );
    assert_eq!(
        manager.absorb(&InputEvent::ScaleFactorChanged {
            factor: 9,
            new_size: SurfaceSize { width: 20, height: 30 },
        }),
        SurfaceCommand::Idle
    );
    assert_eq!(manager.state(), configured(20, 30, 9));
    assert_eq!(
        manager.absorb(&InputEvent::ScaleFactorChanged {
            factor: 9,
            new_size: SurfaceSize { width: 40, height: 60 },
        }),
        SurfaceCommand::Configure { width: 40, height: 60 }
    );
    assert_eq!(manager.state(), configured(40, 60, 9));
    for event in [
        InputEvent::KeyPress { code: 1, pressed: true },
        InputEvent::ModifiersChanged { state: 3 },
        InputEvent::ThemeChanged { mode: ThemeMode::Light },
        InputEvent::RedrawRequested,
        InputEvent::ApplicationEvent { payload: 5 },
        InputEvent::Other { kind: 2 },
    ] {
        assert_eq!(manager.absorb(&event), SurfaceCommand::Idle);
        assert_eq!(manager.state(), configured(40, 60, 9));
    }
}

#[test]
fn last_reported_size_wins() {
    let mut manager = SurfaceManager::new(1, 1, 1);
    let events = [
        InputEvent::Resized { width: 100, height: 200 },
        InputEvent::ScaleFactorChanged { factor: 2, new_size: SurfaceSize { width: 50, height: 60 } },
        InputEvent::Resized { width: 100, height: 200 },
        InputEvent::Resized { width: 100, height: 200 },
        InputEvent::ScaleFactorChanged { factor: 3, new_size: SurfaceSize { width: 7, height: 0 } },
        InputEvent::Resized { width: 1920, height: 1080 },
    ];
    for event in events.iter() {
        manager.absorb(event);
    }
    assert_eq!(manager.state(), configured(1920, 1080, 3));
}

#[test]
fn zero_dimensions_are_recorded_as_reported() {
    let mut manager = SurfaceManager::new(800, 600, 1);
    manager.absorb(&InputEvent::Resized { width: 0, height: 0 });
    assert_eq!(manager.state(), configured(0, 0, 1));
}

#[test]
fn acquire_with_a_target_presents_with_the_dimensions_in_force() {
    let mut manager = SurfaceManager::new(800, 600, 5);
    let acquired = manager.acquire(Ok(()));
    assert_eq!(
        acquired,
        Acquisition {
            result: Ok(PresentableTarget { width: 800, height: 600, scale: 5 }),
            command: SurfaceCommand::Idle,
        }
    );
    assert_eq!(manager.state(), configured(800, 600, 5));
}

#[test]
fn outdated_surface_is_skipped_without_reconfiguring() {
    let mut manager = SurfaceManager::new(800, 600, 5);
    let acquired = manager.acquire(Err(AcquireOutcome::Outdated));
    assert_eq!(acquired.result, Err(AcquireOutcome::Outdated));
    assert_eq!(acquired.command, SurfaceCommand::Idle);
    assert_eq!(manager.state(), configured(800, 600, 5));
    assert!(!AcquireOutcome::Outdated.is_logged());
}

#[test]
fn lost_surface_is_configured_again_with_the_last_known_size() {
    let mut manager = SurfaceManager::new(800, 600, 5);
    manager.reconfigure(320, 240);
    let acquired = manager.acquire(Err(AcquireOutcome::Lost));
    assert_eq!(acquired.result, Err(AcquireOutcome::Lost));
    assert_eq!(acquired.command, SurfaceCommand::Configure { width: 320, height: 240 });
    assert_eq!(manager.state(), configured(320, 240, 5));
    assert!(!AcquireOutcome::Lost.is_logged());
}

#[test]
fn out_of_memory_is_fatal() {
    let mut manager = SurfaceManager::new(800, 600, 5);
    let acquired = manager.acquire(Err(AcquireOutcome::OutOfMemory));
    assert_eq!(acquired.result, Err(AcquireOutcome::OutOfMemory));
    assert_eq!(acquired.command, SurfaceCommand::Idle);
    assert_eq!(manager.state(), SurfaceState::Fatal);
    assert!(manager.is_fatal());
}

#[test]
fn other_failures_drop_the_frame_and_are_logged() {
    let mut manager = SurfaceManager::new(800, 600, 5);
    let acquired = manager.acquire(Err(AcquireOutcome::Other));
    assert_eq!(acquired.result, Err(AcquireOutcome::Other));
    assert_eq!(acquired.command, SurfaceCommand::Idle);
    assert_eq!(manager.state(), configured(800, 600, 5));
    assert!(AcquireOutcome::Other.is_logged());
    assert!(!AcquireOutcome::OutOfMemory.is_logged());
}

#[test]
fn fatal_surface_is_left_alone() {
    let mut manager = SurfaceManager::new(800, 600, 5);
    manager.acquire(Err(AcquireOutcome::OutOfMemory));
    assert_eq!(manager.reconfigure(1, 2), SurfaceCommand::Idle);
    manager.set_scale_factor(9);
    assert_eq!(manager.absorb(&InputEvent::Resized { width: 3, height: 4 }), SurfaceCommand::Idle);
    for reported in [
        Ok(()),
        Err(AcquireOutcome::Lost),
        Err(AcquireOutcome::Outdated),
        Err(AcquireOutcome::Other),
        Err(AcquireOutcome::OutOfMemory),
    ] {
        let acquired = manager.acquire(reported);
        assert_eq!(acquired.result, Err(AcquireOutcome::OutOfMemory));
        assert_eq!(acquired.command, SurfaceCommand::Idle);
    }
    assert_eq!(manager.state(), SurfaceState::Fatal);
}

#[test]
fn outdated_lost_ready_reconfigures_once_and_presents_once() {
    let mut manager = SurfaceManager::new(800, 600, 5);
    let mut reconfigured = 0;
    let mut presented = Vec::new();
    let reports = [Err(AcquireOutcome::Outdated), Err(AcquireOutcome::Lost), Ok(())];
    for (attempt, reported) in reports.iter().enumerate() {
        let acquired = manager.acquire(*reported);
        if acquired.command != SurfaceCommand::Idle {
            assert_eq!(attempt, 1);
            assert_eq!(acquired.command, SurfaceCommand::Configure { width: 800, height: 600 });
            reconfigured += 1;
        }
        if acquired.result.is_ok() {
            presented.push(attempt);
        }
    }
    assert_eq!(reconfigured, 1);
    assert_eq!(presented, vec![2]);
}

#[test]
fn replaying_a_run_of_events_changes_nothing() {
    let events = [
        InputEvent::Resized { width: 100, height: 200 },
        InputEvent::KeyPress { code: 4, pressed: true },
        InputEvent::ScaleFactorChanged { factor: 2, new_size: SurfaceSize { width: 50, height: 60 } },
        InputEvent::Resized { width: 640, height: 480 },
        InputEvent::RedrawRequested,
    ];
    let mut manager = SurfaceManager::new(1, 1, 1);
    for event in events.iter() {
        manager.absorb(event);
    }
    let settled = manager.state();
    assert_eq!(settled, configured(640, 480, 2));
    for event in events.iter() {
        manager.absorb(event);
    }
    assert_eq!(manager.state(), settled);
}
