//! The presentation surface: its configuration, and what to do when a target
//! to draw into cannot be had.
//!
//! The surface itself lives with the host. The manager keeps what the surface
//! was last configured with and tells the host when to configure it again.

use crate::event::InputEvent;
use vstd::prelude::*;

verus! {

/// State of the presentation surface.
#[derive(Clone, Copy, Debug, PartialEq, Eq, Structural)]
pub enum SurfaceState {
    /// Usable, with these dimensions in pixels and this scale factor (the bit
    /// pattern of its single-precision value).
    Configured { width: u32, height: u32, scale: u32 },
    /// Lost for good. Nothing leaves this state.
    Fatal,
}

/// Why the backend handed out no target.
#[derive(Clone, Copy, Debug, PartialEq, Eq, Structural)]
pub enum AcquireOutcome {
    /// The surface no longer matches the window, as after minimising.
    Outdated,
    /// The surface is gone and must be configured anew.
    Lost,
    /// The device has no memory left.
    OutOfMemory,
    /// Any other failure that the backend reports.
    Other,
}

/// Description of the target that a frame is drawn into.
#[derive(Clone, Copy, Debug, PartialEq, Eq, Structural)]
pub struct PresentableTarget {
    pub width: u32,
    pub height: u32,
    pub scale: u32,
}

/// Work on the surface that the host has to carry out.
#[derive(Clone, Copy, Debug, PartialEq, Eq, Structural)]
pub enum SurfaceCommand {
    /// Nothing to do.
    Idle,
    /// Configure the surface with these dimensions.
    Configure { width: u32, height: u32 },
}

/// What an attempt to acquire a target comes to.
#[derive(Clone, Copy, Debug, PartialEq, Eq)]
pub struct Acquisition {
    /// The target to present into, or why there is no frame in this iteration.
    pub result: Result<PresentableTarget, AcquireOutcome>,
    /// Work on the surface to do before the next attempt.
    pub command: SurfaceCommand,
}

/// `state` with new dimensions. A surface lost for good stays so.
pub open spec fn resized(state: SurfaceState, width: u32, height: u32) -> SurfaceState {
    match state {
        SurfaceState::Configured { scale, .. } => SurfaceState::Configured { width, height, scale },
        SurfaceState::Fatal => SurfaceState::Fatal,
    }
}

/// `state` with a new scale factor. A surface lost for good stays so.
pub open spec fn rescaled(state: SurfaceState, factor: u32) -> SurfaceState {
    match state {
        SurfaceState::Configured { width, height, .. } => SurfaceState::Configured {
            width,
            height,
            scale: factor,
        },
        SurfaceState::Fatal => SurfaceState::Fatal,
    }
}

/// What the host has to do when `state` is given the dimensions `width` by
/// `height`: configure the surface where they are new, nothing where they are
/// the ones in force or the surface is lost for good.
pub open spec fn resize_command(state: SurfaceState, width: u32, height: u32) -> SurfaceCommand {
    match state {
        SurfaceState::Configured { width: w, height: h, .. } => if w == width && h == height {
            SurfaceCommand::Idle
        } else {
            SurfaceCommand::Configure { width, height }
        },
        SurfaceState::Fatal => SurfaceCommand::Idle,
    }
}

/// State after the backend reported `reported` on an attempt to acquire a
/// target: only running out of memory changes it.
pub open spec fn after_acquire(
    state: SurfaceState,
    reported: Result<(), AcquireOutcome>,
) -> SurfaceState {
    match reported {
        Err(AcquireOutcome::OutOfMemory) => SurfaceState::Fatal,
        _ => state,
    }
}

/// What the attempt comes to. On a surface lost for good nothing is attempted
/// any more. Otherwise a target that the backend handed out is presented into;
/// an outdated surface and any unclassified failure cost this frame and no
/// more; a lost surface is configured again with the dimensions in force; and
/// running out of memory is final.
pub open spec fn acquisition(
    state: SurfaceState,
    reported: Result<(), AcquireOutcome>,
) -> Acquisition {
    match state {
        SurfaceState::Fatal => Acquisition {
            result: Err(AcquireOutcome::OutOfMemory),
            command: SurfaceCommand::Idle,
        },
        SurfaceState::Configured { width, height, scale } => match reported {
            Ok(()) => Acquisition {
                result: Ok(PresentableTarget { width, height, scale }),
                command: SurfaceCommand::Idle,
            },
            Err(AcquireOutcome::Lost) => Acquisition {
                result: Err(AcquireOutcome::Lost),
                command: SurfaceCommand::Configure { width, height },
            },
            Err(outcome) => Acquisition { result: Err(outcome), command: SurfaceCommand::Idle },
        },
    }
}

/// Failures that are worth a line in the log. An outdated surface is not: it
/// comes with every frame while the window is minimised. Nor is a lost one,
/// which is repaired on the spot.
pub open spec fn logged(outcome: AcquireOutcome) -> bool {
    outcome is Other
}

/// `state` after the surface manager has seen `event`. Only a new size and a
/// new scale factor concern it.
pub open spec fn absorbed(state: SurfaceState, event: InputEvent) -> SurfaceState {
    match event {
        InputEvent::Resized { width, height } => resized(state, width, height),
        InputEvent::ScaleFactorChanged { factor, new_size } => resized(
            rescaled(state, factor),
            new_size.width,
            new_size.height,
        ),
        _ => state,
    }
}

/// What the host has to do to the surface on `event`.
pub open spec fn absorb_command(state: SurfaceState, event: InputEvent) -> SurfaceCommand {
    match event {
        InputEvent::Resized { width, height } => resize_command(state, width, height),
        InputEvent::ScaleFactorChanged { new_size, .. } => resize_command(
            state,
            new_size.width,
            new_size.height,
        ),
        _ => SurfaceCommand::Idle,
    }
}

/// `state` after the surface manager has seen `events` one after the other.
pub open spec fn absorbed_all(state: SurfaceState, events: Seq<InputEvent>) -> SurfaceState
    decreases events.len(),
{
    if events.len() == 0 {
        state
    } else {
        absorbed(absorbed_all(state, events.drop_last()), events.last())
    }
}

/// The event tells the drawable area's size.
pub open spec fn reports_size(event: InputEvent) -> bool {
    event is Resized || event is ScaleFactorChanged
}

/// The dimensions that a size-reporting event carries.
pub open spec fn reported_size(event: InputEvent) -> (u32, u32) {
    match event {
        InputEvent::Resized { width, height } => (width, height),
        InputEvent::ScaleFactorChanged { new_size, .. } => (new_size.width, new_size.height),
        _ => (0, 0),
    }
}

/// The dimensions that are in force after `events`, where `size` was in force
/// before: those of the last event that reports a size, or `size` where none
/// does.
pub open spec fn settled_size(size: (u32, u32), events: Seq<InputEvent>) -> (u32, u32)
    decreases events.len(),
{
    if events.len() == 0 {
        size
    } else if reports_size(events.last()) {
        reported_size(events.last())
    } else {
        settled_size(size, events.drop_last())
    }
}

/// The scale factor that is in force after `events`, where `scale` was in
/// force before: that of the last change of scale, or `scale` where there is
/// none.
pub open spec fn settled_scale(scale: u32, events: Seq<InputEvent>) -> u32
    decreases events.len(),
{
    if events.len() == 0 {
        scale
    } else {
        match events.last() {
            InputEvent::ScaleFactorChanged { factor, .. } => factor,
            _ => settled_scale(scale, events.drop_last()),
        }
    }
}

/// The dimensions in force, where the surface is usable.
pub open spec fn dimensions(state: SurfaceState) -> Option<(u32, u32)> {
    match state {
        SurfaceState::Configured { width, height, .. } => Some((width, height)),
        SurfaceState::Fatal => None,
    }
}

/// Keeper of the surface's configuration.
pub struct SurfaceManager {
    state: SurfaceState,
}

impl View for SurfaceManager {
    type V = SurfaceState;

    closed spec fn view(&self) -> SurfaceState {
        self.state
    }
}

impl AcquireOutcome {
    /// Whether the failure is worth a line in the log.
    pub fn is_logged(&self) -> (r: bool)
        ensures
            r == logged(*self),
    {
        match self {
            AcquireOutcome::Other => true,
            _ => false,
        }
    }
}

impl SurfaceManager {
    /// The manager of a surface that was just configured with these values.
    pub fn new(width: u32, height: u32, scale: u32) -> (manager: SurfaceManager)
        ensures
            manager@ == (SurfaceState::Configured { width, height, scale }),
    {
        SurfaceManager { state: SurfaceState::Configured { width, height, scale } }
    }

    /// The surface's state.
    pub fn state(&self) -> (state: SurfaceState)
        ensures
            state == self@,
    {
        self.state
    }

    /// Whether the surface is lost for good.
    pub fn is_fatal(&self) -> (fatal: bool)
        ensures
            fatal == (self@ is Fatal),
    {
        match self.state {
            SurfaceState::Fatal => true,
            SurfaceState::Configured { .. } => false,
        }
    }

    /// Takes new dimensions. The host configures the surface only where they
    /// differ from those in force, so that the call may be repeated at will.
    pub fn reconfigure(&mut self, width: u32, height: u32) -> (command: SurfaceCommand)
        ensures
            final(self)@ == resized(old(self)@, width, height),
            command == resize_command(old(self)@, width, height),
        no_unwind
    {
        match self.state {
            SurfaceState::Configured { width: w, height: h, scale } => {
                self.state = SurfaceState::Configured { width, height, scale };
                if w == width && h == height {
                    SurfaceCommand::Idle
                } else {
                    SurfaceCommand::Configure { width, height }
                }
            },
            SurfaceState::Fatal => SurfaceCommand::Idle,
        }
    }

    /// Takes a new scale factor.
    pub fn set_scale_factor(&mut self, factor: u32)
        ensures
            final(self)@ == rescaled(old(self)@, factor),
        no_unwind
    {
        match self.state {
            SurfaceState::Configured { width, height, .. } => {
                self.state = SurfaceState::Configured { width, height, scale: factor };
            },
            SurfaceState::Fatal => {},
        }
    }

    /// Takes an event of the window system and says what the host has to do to
    /// the surface.
    pub fn absorb(&mut self, event: &InputEvent) -> (command: SurfaceCommand)
        ensures
            final(self)@ == absorbed(old(self)@, *event),
            command == absorb_command(old(self)@, *event),
        no_unwind
    {
        match event {
            InputEvent::Resized { width, height } => self.reconfigure(*width, *height),
            InputEvent::ScaleFactorChanged { factor, new_size } => {
                self.set_scale_factor(*factor);
                self.reconfigure(new_size.width, new_size.height)
            },
            _ => SurfaceCommand::Idle,
        }
    }

    /// Takes what the backend reported on an attempt to acquire a target, and
    /// says whether a frame is presented and what has to be done to the
    /// surface first.
    pub fn acquire(&mut self, reported: Result<(), AcquireOutcome>) -> (outcome: Acquisition)
        ensures
            outcome == acquisition(old(self)@, reported),
            final(self)@ == after_acquire(old(self)@, reported),
        no_unwind
    {
        match self.state {
            SurfaceState::Fatal => Acquisition {
                result: Err(AcquireOutcome::OutOfMemory),
                command: SurfaceCommand::Idle,
            },
            SurfaceState::Configured { width, height, scale } => match reported {
                Ok(()) => Acquisition {
                    result: Ok(PresentableTarget { width, height, scale }),
                    command: SurfaceCommand::Idle,
                },
                Err(AcquireOutcome::Lost) => Acquisition {
                    result: Err(AcquireOutcome::Lost),
                    command: SurfaceCommand::Configure { width, height },
                },
                Err(AcquireOutcome::OutOfMemory) => {
                    self.state = SurfaceState::Fatal;
                    Acquisition {
                        result: Err(AcquireOutcome::OutOfMemory),
                        command: SurfaceCommand::Idle,
                    }
                },
                Err(outcome) => Acquisition { result: Err(outcome), command: SurfaceCommand::Idle },
            },
        }
    }
}

/// What a run of events leaves of a usable surface: the dimensions of the last
/// event that reports a size and the factor of the last change of scale. The
/// order of the events matters for nothing else.
pub proof fn lemma_events_settle(width: u32, height: u32, scale: u32, events: Seq<InputEvent>)
    ensures
        absorbed_all(SurfaceState::Configured { width, height, scale }, events) == (
        SurfaceState::Configured {
            width: settled_size((width, height), events).0,
            height: settled_size((width, height), events).1,
            scale: settled_scale(scale, events),
        }),
    decreases events.len(),
{
    if events.len() > 0 {
        lemma_events_settle(width, height, scale, events.drop_last());
    }
}

/// What a run of events leaves does not depend on what was in force before,
/// or else it is what was in force before.
proof fn lemma_settled_either_way(
    first: (u32, u32),
    second: (u32, u32),
    one: u32,
    other: u32,
    events: Seq<InputEvent>,
)
    ensures
        settled_size(first, events) == settled_size(second, events) || (settled_size(first, events)
            == first && settled_size(second, events) == second),
        settled_scale(one, events) == settled_scale(other, events) || (settled_scale(one, events)
            == one && settled_scale(other, events) == other),
    decreases events.len(),
{
    if events.len() > 0 {
        lemma_settled_either_way(first, second, one, other, events.drop_last());
    }
}

/// The surface converges: a run of events that comes a second time changes
/// nothing any more.
pub proof fn lemma_replay_changes_nothing(state: SurfaceState, events: Seq<InputEvent>)
    ensures
        absorbed_all(absorbed_all(state, events), events) == absorbed_all(state, events),
{
    match state {
        SurfaceState::Fatal => {
            lemma_fatal_stays_fatal(events);
        },
        SurfaceState::Configured { width, height, scale } => {
            lemma_events_settle(width, height, scale, events);
            let size = settled_size((width, height), events);
            let factor = settled_scale(scale, events);
            lemma_events_settle(size.0, size.1, factor, events);
            lemma_settled_either_way((width, height), size, scale, factor, events);
        },
    }
}

/// No run of events brings back a surface that is lost for good.
pub proof fn lemma_fatal_stays_fatal(events: Seq<InputEvent>)
    ensures
        absorbed_all(SurfaceState::Fatal, events) is Fatal,
    decreases events.len(),
{
    if events.len() > 0 {
        lemma_fatal_stays_fatal(events.drop_last());
    }
}

/// After any run of events that report a size, the dimensions in force are
/// those of the last event, whatever came before it.
pub proof fn lemma_last_size_wins(state: SurfaceState, events: Seq<InputEvent>)
    requires
        state is Configured,
        events.len() > 0,
        forall|i: int| 0 <= i < events.len() ==> reports_size(#[trigger] events[i]),
    ensures
        dimensions(absorbed_all(state, events)) == Some(reported_size(events.last())),
    decreases events.len(),
{
    lemma_usable_stays_usable(state, events.drop_last());
}

/// No event of the window system makes a usable surface unusable.
pub proof fn lemma_usable_stays_usable(state: SurfaceState, events: Seq<InputEvent>)
    requires
        state is Configured,
    ensures
        absorbed_all(state, events) is Configured,
    decreases events.len(),
{
    if events.len() > 0 {
        lemma_usable_stays_usable(state, events.drop_last());
    }
}

/// Telling the manager the same size or the same scale factor again changes
/// nothing and gives the host nothing to do.
pub proof fn lemma_repeat_is_noop(state: SurfaceState, width: u32, height: u32, factor: u32)
    ensures
        resized(resized(state, width, height), width, height) == resized(state, width, height),
        resize_command(resized(state, width, height), width, height) == SurfaceCommand::Idle,
        rescaled(rescaled(state, factor), factor) == rescaled(state, factor),
        dimensions(state) == Some((width, height)) ==> resized(state, width, height) == state,
{
}

/// A surface lost for good is left alone: no event and no report changes it or
/// gives the host work on it.
pub proof fn lemma_fatal_is_final(event: InputEvent, reported: Result<(), AcquireOutcome>)
    ensures
        absorbed(SurfaceState::Fatal, event) is Fatal,
        absorb_command(SurfaceState::Fatal, event) == SurfaceCommand::Idle,
        acquisition(SurfaceState::Fatal, reported).command == SurfaceCommand::Idle,
        acquisition(SurfaceState::Fatal, reported).result is Err,
{
}

/// The surface is configured anew on an attempt exactly when the backend
/// reports it lost, and a frame is presented exactly when the backend handed
/// out a target.
pub proof fn lemma_acquire_policy(state: SurfaceState, reported: Result<(), AcquireOutcome>)
    requires
        state is Configured,
    ensures
        acquisition(state, reported).command is Configure <==> reported == Err::<
            (),
            AcquireOutcome,
        >(AcquireOutcome::Lost),
        acquisition(state, reported).result is Ok <==> reported is Ok,
        after_acquire(state, reported) is Fatal <==> reported == Err::<(), AcquireOutcome>(
            AcquireOutcome::OutOfMemory,
        ),
        acquisition(state, reported).command matches SurfaceCommand::Configure { width, height }
            ==> dimensions(state) == Some((width, height)),
{
}

} // verus!
