//! The control loop: what becomes of an event once the chain has spoken, and
//! the steps of a frame from the redraw request to the presentation.
//!
//! The host performs every step and reports what came of it; the dispatcher
//! says which step is next. A frame goes through pacing, acquisition of a
//! target, the content producer, the UI layer, and presentation, in this
//! order, and a report that is out of turn changes nothing.

use crate::chain::{outcome, ConsumptionResult, DispatchPass, PassView};
use crate::clock::LoopClock;
use crate::event::{InputEvent, ThemeMode};
use crate::schedule::{
    after_iteration,
    clamp_instant,
    frame_due,
    initial_schedule,
    FrameClock,
    FrameDecision,
    FrameScheduler,
    Schedule,
};
use crate::surface::{
    absorb_command,
    absorbed,
    acquisition,
    dimensions,
    reported_size,
    reports_size,
    AcquireOutcome,
    PresentableTarget,
    SurfaceCommand,
    SurfaceManager,
    SurfaceState,
};
use crate::texture::{
    identifier,
    registered,
    releasable,
    updated,
    CompositedTexture,
    TextureBridge,
    TextureId,
};
use crate::theme::{profile_for, StyleProfile, ThemeManager};
use vstd::prelude::*;

verus! {

/// Where the loop stands within an iteration.
#[derive(Clone, Copy, Debug, PartialEq, Eq, Structural)]
pub enum Phase {
    /// Between frames.
    Idle,
    /// A frame is due; the host is acquiring a target.
    AwaitingSurface,
    /// A target is there; the content producer is drawing.
    AwaitingContent,
    /// The content is settled; the UI layer is building its display list.
    AwaitingUi,
    /// The loop is shutting down. Nothing leaves this phase.
    Exiting,
}

/// What the host has to do after an event was dispatched.
#[derive(Clone, Copy, Debug, PartialEq, Eq, Structural)]
pub enum HostCommand {
    /// Nothing to do.
    Nothing,
    /// Configure the presentation surface with these dimensions.
    ConfigureSurface { width: u32, height: u32 },
    /// Hand this style to the UI layer.
    ApplyStyle { profile: StyleProfile },
    /// Start an iteration of the frame loop.
    Redraw,
    /// Leave the event loop.
    Exit,
}

/// What dispatching an event came to.
#[derive(Clone, Copy, Debug, PartialEq, Eq, Structural)]
pub struct Dispatched {
    pub result: ConsumptionResult,
    pub command: HostCommand,
}

/// The next step of a frame, for the host to perform and report on.
#[derive(Clone, Copy, Debug, PartialEq, Eq)]
pub enum FrameStep {
    /// Nothing more in this iteration.
    Rest,
    /// Acquire a target from the presentation surface.
    Acquire,
    /// Let the content producer draw for this target.
    Draw { target: PresentableTarget },
    /// Put the new view, if there is one, behind the composited texture, then
    /// let the UI layer build its display list.
    Build { refreshed: Option<CompositedTexture> },
    /// Record the display list, submit it and present the frame.
    Present,
    /// The frame is dropped for `cause`; carry out `command` on the surface.
    Dropped { cause: AcquireOutcome, command: SurfaceCommand },
    /// Leave the event loop.
    Exit,
}

/// How an iteration starts.
#[derive(Clone, Copy, Debug, PartialEq, Eq)]
pub struct FramePlan {
    /// Have the preferences saved in this iteration.
    pub save_preferences: bool,
    pub step: FrameStep,
}

/// Mathematical state of the loop.
pub struct LoopState {
    pub surface: SurfaceState,
    pub style: StyleProfile,
    pub schedule: Schedule,
    pub bridge: Option<CompositedTexture>,
    pub phase: Phase,
}

/// What the host can report to the loop.
pub enum LoopInput {
    /// The texture of the content view was registered with the UI layer.
    Register { id: TextureId, view: u64 },
    /// An event went through the chain.
    Pass { pass: PassView },
    /// A redraw was requested at `now`; frames are wanted every `interval`.
    Begin { now: nat, interval: nat },
    /// The backend answered the attempt to acquire a target.
    Surface { reported: Result<(), AcquireOutcome> },
    /// The content producer drew into a view, or had nothing new.
    Content { content: Option<u64> },
    /// The UI layer built its display list at `now` and wants to repaint by
    /// itself after `repaint_after`.
    Ui { now: nat, repaint_after: nat },
}

/// `schedule`, with a repaint asked for where `wanted`.
pub open spec fn with_repaint(schedule: Schedule, wanted: bool) -> Schedule {
    if wanted {
        Schedule { repaint_requested: true, ..schedule }
    } else {
        schedule
    }
}

/// The step that tells the host to do nothing, or to leave where the loop is
/// shutting down.
pub open spec fn resting(state: LoopState) -> FrameStep {
    if state.phase is Exiting {
        FrameStep::Exit
    } else {
        FrameStep::Rest
    }
}

/// The loop that starts at `start`, with a surface just configured, the style
/// of `mode`, and no texture registered.
pub open spec fn initial_loop(
    start: nat,
    interval: nat,
    width: u32,
    height: u32,
    scale: u32,
    mode: ThemeMode,
) -> LoopState {
    LoopState {
        surface: SurfaceState::Configured { width, height, scale },
        style: profile_for(mode),
        schedule: initial_schedule(start, interval),
        bridge: None,
        phase: Phase::Idle,
    }
}

/// State after an event went through the chain. The surface takes a new size
/// and a new scale factor, the theme a new mode, and the scheduler the wish
/// for a repaint, whoever claimed the event. A loop that is shutting down
/// takes nothing.
pub open spec fn dispatched(state: LoopState, pass: PassView) -> LoopState {
    if state.phase is Exiting {
        state
    } else {
        LoopState {
            surface: absorbed(state.surface, pass.event),
            style: match pass.event {
                InputEvent::ThemeChanged { mode } => profile_for(mode),
                _ => state.style,
            },
            schedule: with_repaint(state.schedule, outcome(pass).needs_repaint),
            ..state
        }
    }
}

/// What the host has to do once `event` went through the chain.
pub open spec fn dispatch_command(state: LoopState, event: InputEvent) -> HostCommand {
    if state.phase is Exiting {
        HostCommand::Exit
    } else {
        match event {
            InputEvent::ThemeChanged { mode } => HostCommand::ApplyStyle {
                profile: profile_for(mode),
            },
            InputEvent::RedrawRequested => HostCommand::Redraw,
            _ => match absorb_command(state.surface, event) {
                SurfaceCommand::Configure { width, height } => HostCommand::ConfigureSurface {
                    width,
                    height,
                },
                SurfaceCommand::Idle => HostCommand::Nothing,
            },
        }
    }
}

/// The schedule with the frame duration that the preferences give now.
pub open spec fn paced(state: LoopState, interval: nat) -> Schedule {
    Schedule { target_interval: interval, ..state.schedule }
}

/// State after an iteration began at `now`: the scheduler has decided, and a
/// frame that was under way is given up.
pub open spec fn begun(state: LoopState, now: nat, interval: nat) -> LoopState {
    if state.phase is Exiting {
        state
    } else {
        LoopState {
            schedule: after_iteration(paced(state, interval), now),
            phase: if frame_due(paced(state, interval), now) {
                Phase::AwaitingSurface
            } else {
                Phase::Idle
            },
            ..state
        }
    }
}

/// The first step of the iteration that begins at `now`.
pub open spec fn begin_step(state: LoopState, now: nat, interval: nat) -> FrameStep {
    if state.phase is Exiting {
        FrameStep::Exit
    } else if frame_due(paced(state, interval), now) {
        FrameStep::Acquire
    } else {
        FrameStep::Rest
    }
}

/// State after the backend answered the attempt to acquire a target. With a
/// target the frame goes on. Without memory the loop shuts down. Any other
/// failure ends the iteration and asks for a frame in the next one.
pub open spec fn surface_answered(
    state: LoopState,
    reported: Result<(), AcquireOutcome>,
) -> LoopState {
    if !(state.phase is AwaitingSurface) {
        state
    } else {
        match acquisition(state.surface, reported).result {
            Ok(_) => LoopState { phase: Phase::AwaitingContent, ..state },
            Err(AcquireOutcome::OutOfMemory) => LoopState {
                surface: SurfaceState::Fatal,
                phase: Phase::Exiting,
                ..state
            },
            Err(_) => LoopState {
                schedule: with_repaint(state.schedule, true),
                phase: Phase::Idle,
                ..state
            },
        }
    }
}

/// The step after the backend's answer.
pub open spec fn surface_step(state: LoopState, reported: Result<(), AcquireOutcome>) -> FrameStep {
    if !(state.phase is AwaitingSurface) {
        resting(state)
    } else {
        match acquisition(state.surface, reported).result {
            Ok(target) => FrameStep::Draw { target },
            Err(AcquireOutcome::OutOfMemory) => FrameStep::Exit,
            Err(cause) => FrameStep::Dropped {
                cause,
                command: acquisition(state.surface, reported).command,
            },
        }
    }
}

/// The composited texture to point the UI layer's entry at: none unless the
/// content producer drew and a texture is registered.
pub open spec fn refreshed(state: LoopState, content: Option<u64>) -> Option<CompositedTexture> {
    match content {
        Some(view) => updated(state.bridge, view),
        None => None,
    }
}

/// State after the content producer reported. New content goes behind the
/// composited texture and asks for a repaint; unchanged content touches
/// neither the texture nor the scheduler.
pub open spec fn content_answered(state: LoopState, content: Option<u64>) -> LoopState {
    if !(state.phase is AwaitingContent) {
        state
    } else {
        match content {
            Some(view) => LoopState {
                bridge: updated(state.bridge, view),
                schedule: with_repaint(state.schedule, state.bridge is Some),
                phase: Phase::AwaitingUi,
                ..state
            },
            None => LoopState { phase: Phase::AwaitingUi, ..state },
        }
    }
}

/// The step after the content producer's report.
pub open spec fn content_step(state: LoopState, content: Option<u64>) -> FrameStep {
    if !(state.phase is AwaitingContent) {
        resting(state)
    } else {
        FrameStep::Build { refreshed: refreshed(state, content) }
    }
}

/// State after the UI layer built its display list: its deferral is noted and
/// the frame is handed over for presentation.
pub open spec fn ui_answered(state: LoopState, now: nat, repaint_after: nat) -> LoopState {
    if !(state.phase is AwaitingUi) {
        state
    } else {
        LoopState {
            schedule: Schedule {
                repaint_due: clamp_instant(now + repaint_after),
                ..state.schedule
            },
            phase: Phase::Idle,
            ..state
        }
    }
}

/// The step after the UI layer's report.
pub open spec fn ui_step(state: LoopState) -> FrameStep {
    if !(state.phase is AwaitingUi) {
        resting(state)
    } else {
        FrameStep::Present
    }
}

/// State after `input`.
pub open spec fn advanced(state: LoopState, input: LoopInput) -> LoopState {
    match input {
        LoopInput::Register { id, view } => LoopState {
            bridge: registered(state.bridge, id, view),
            ..state
        },
        LoopInput::Pass { pass } => dispatched(state, pass),
        LoopInput::Begin { now, interval } => begun(state, now, interval),
        LoopInput::Surface { reported } => surface_answered(state, reported),
        LoopInput::Content { content } => content_answered(state, content),
        LoopInput::Ui { now, repaint_after } => ui_answered(state, now, repaint_after),
    }
}

/// State after the inputs in `inputs`, one after the other.
pub open spec fn ran(state: LoopState, inputs: Seq<LoopInput>) -> LoopState
    decreases inputs.len(),
{
    if inputs.len() == 0 {
        state
    } else {
        advanced(ran(state, inputs.drop_last()), inputs.last())
    }
}

/// `input` makes the host present a frame.
pub open spec fn presents(state: LoopState, input: LoopInput) -> bool {
    input is Ui && state.phase is AwaitingUi
}

/// `input` makes the host touch the presentation surface: acquire a target
/// from it, or configure it.
pub open spec fn touches_surface(state: LoopState, input: LoopInput) -> bool {
    match input {
        LoopInput::Pass { pass } => dispatch_command(state, pass.event) is ConfigureSurface,
        LoopInput::Begin { now, interval } => begin_step(state, now, interval) is Acquire,
        LoopInput::Surface { reported } => surface_step(state, reported) matches FrameStep::Dropped {
            command,
            ..
        } && command is Configure,
        _ => false,
    }
}

/// Frames that the host presents while `inputs` come in.
pub open spec fn frames_presented(state: LoopState, inputs: Seq<LoopInput>) -> nat
    decreases inputs.len(),
{
    if inputs.len() == 0 {
        0
    } else {
        frames_presented(state, inputs.drop_last()) + if presents(
            ran(state, inputs.drop_last()),
            inputs.last(),
        ) {
            1nat
        } else {
            0nat
        }
    }
}

/// Iterations that begin among `inputs`.
pub open spec fn iterations(inputs: Seq<LoopInput>) -> nat
    decreases inputs.len(),
{
    if inputs.len() == 0 {
        0
    } else {
        iterations(inputs.drop_last()) + if inputs.last() is Begin {
            1nat
        } else {
            0nat
        }
    }
}

/// `input` is the dispatch of an event that reports the drawable area's size.
pub open spec fn size_report(input: LoopInput) -> bool {
    input matches LoopInput::Pass { pass } && reports_size(pass.event)
}

/// The phase and the surface agree: a surface lost for good is found only in a
/// loop that is shutting down. Every loop in use is so.
pub open spec fn coherent(state: LoopState) -> bool {
    state.surface is Fatal ==> state.phase is Exiting
}

/// A frame is under way.
pub open spec fn in_flight(state: LoopState) -> bool {
    state.phase is AwaitingSurface || state.phase is AwaitingContent || state.phase is AwaitingUi
}

/// The top of the control loop.
pub struct EventDispatcher {
    surface: SurfaceManager,
    theme: ThemeManager,
    scheduler: FrameScheduler,
    bridge: TextureBridge,
    phase: Phase,
}

impl View for EventDispatcher {
    type V = LoopState;

    closed spec fn view(&self) -> LoopState {
        LoopState {
            surface: self.surface@,
            style: self.theme@,
            schedule: self.scheduler@,
            bridge: self.bridge@,
            phase: self.phase,
        }
    }
}

impl EventDispatcher {
    #[verifier::type_invariant]
    spec fn phase_fits_surface(self) -> bool {
        self.surface@ is Fatal ==> self.phase is Exiting
    }

    /// The loop as it starts at `start`: the surface was just configured with
    /// `width`, `height` and `scale`, frames are wanted every
    /// `target_interval`, and the style is that of `mode`.
    pub fn new(
        start: u64,
        target_interval: u64,
        width: u32,
        height: u32,
        scale: u32,
        mode: ThemeMode,
    ) -> (dispatcher: EventDispatcher)
        ensures
            dispatcher@ == initial_loop(
                start as nat,
                target_interval as nat,
                width,
                height,
                scale,
                mode,
            ),
            coherent(dispatcher@),
    {
        EventDispatcher {
            surface: SurfaceManager::new(width, height, scale),
            theme: ThemeManager::new(mode),
            scheduler: FrameScheduler::new(start, target_interval),
            bridge: TextureBridge::new(),
            phase: Phase::Idle,
        }
    }

    /// Records the identifier that the UI layer assigned to the content view
    /// and returns the one in force.
    pub fn register(&mut self, assigned: TextureId, view: u64) -> (id: TextureId)
        ensures
            final(self)@ == advanced(old(self)@, LoopInput::Register { id: assigned, view }),
            Some(id) == identifier(final(self)@.bridge),
            coherent(final(self)@),
    {
        proof {
            use_type_invariant(&*self);
        }
        self.bridge.register(assigned, view)
    }

    /// Closes the pass of an event over the chain: lets the surface manager
    /// and the theme manager absorb what is theirs, passes the wish for a
    /// repaint on to the scheduler, and tells the host what to do.
    pub fn dispatch(&mut self, pass: &DispatchPass) -> (done: Dispatched)
        ensures
            final(self)@ == dispatched(old(self)@, pass@),
            done.result == outcome(pass@),
            done.command == dispatch_command(old(self)@, pass@.event),
            coherent(final(self)@),
    {
        proof {
            use_type_invariant(&*self);
        }
        let result = pass.result();
        match self.phase {
            Phase::Exiting => {
                return Dispatched { result, command: HostCommand::Exit };
            },
            _ => {},
        }
        let event = pass.event();
        let command = match event {
            InputEvent::ThemeChanged { mode } => {
                let profile = self.theme.apply(mode);
                HostCommand::ApplyStyle { profile }
            },
            InputEvent::RedrawRequested => HostCommand::Redraw,
            _ => match self.surface.absorb(&event) {
                SurfaceCommand::Configure { width, height } => HostCommand::ConfigureSurface {
                    width,
                    height,
                },
                SurfaceCommand::Idle => HostCommand::Nothing,
            },
        };
        if result.needs_repaint {
            self.scheduler.request_repaint();
        }
        Dispatched { result, command }
    }

    /// Begins an iteration at `now`. `frame_duration` is what the preferences
    /// give at this moment, `needs_save` whether they ask to be saved.
    pub fn begin_frame(&mut self, now: u64, frame_duration: u64, needs_save: bool) -> (plan:
        FramePlan)
        ensures
            final(self)@ == begun(old(self)@, now as nat, frame_duration as nat),
            plan.step == begin_step(old(self)@, now as nat, frame_duration as nat),
            plan.save_preferences == needs_save,
            coherent(final(self)@),
    {
        proof {
            use_type_invariant(&*self);
        }
        match self.phase {
            Phase::Exiting => {
                return FramePlan { save_preferences: needs_save, step: FrameStep::Exit };
            },
            _ => {},
        }
        self.scheduler.set_target_interval(frame_duration);
        match self.scheduler.on_loop_iteration(now) {
            FrameDecision::Produce => {
                self.phase = Phase::AwaitingSurface;
                FramePlan { save_preferences: needs_save, step: FrameStep::Acquire }
            },
            FrameDecision::Skip => {
                self.phase = Phase::Idle;
                FramePlan { save_preferences: needs_save, step: FrameStep::Rest }
            },
        }
    }

    /// Begins an iteration at the instant that `clock` shows, and returns that
    /// instant with the plan.
    pub fn begin_frame_now(
        &mut self,
        clock: &LoopClock,
        frame_duration: u64,
        needs_save: bool,
    ) -> (timed: (u64, FramePlan))
        ensures
            final(self)@ == begun(old(self)@, timed.0 as nat, frame_duration as nat),
            timed.1.step == begin_step(old(self)@, timed.0 as nat, frame_duration as nat),
            timed.1.save_preferences == needs_save,
            coherent(final(self)@),
    {
        let now = clock.now();
        let plan = self.begin_frame(now, frame_duration, needs_save);
        (now, plan)
    }

    /// Takes the backend's answer to the attempt to acquire a target.
    pub fn surface_acquired(&mut self, reported: Result<(), AcquireOutcome>) -> (step: FrameStep)
        ensures
            final(self)@ == surface_answered(old(self)@, reported),
            step == surface_step(old(self)@, reported),
            coherent(final(self)@),
    {
        proof {
            use_type_invariant(&*self);
        }
        match self.phase {
            Phase::AwaitingSurface => {},
            Phase::Exiting => {
                return FrameStep::Exit;
            },
            _ => {
                return FrameStep::Rest;
            },
        }
        match reported {
            Err(AcquireOutcome::OutOfMemory) => {
                self.phase = Phase::Exiting;
            },
            _ => {},
        }
        let acquired = self.surface.acquire(reported);
        match acquired.result {
            Ok(target) => {
                self.phase = Phase::AwaitingContent;
                FrameStep::Draw { target }
            },
            Err(AcquireOutcome::OutOfMemory) => FrameStep::Exit,
            Err(cause) => {
                self.scheduler.request_repaint();
                self.phase = Phase::Idle;
                FrameStep::Dropped { cause, command: acquired.command }
            },
        }
    }

    /// Takes the content producer's report: the view that it drew into, or
    /// `None` where the content is unchanged.
    pub fn content_drawn(&mut self, content: Option<u64>) -> (step: FrameStep)
        ensures
            final(self)@ == content_answered(old(self)@, content),
            step == content_step(old(self)@, content),
            coherent(final(self)@),
    {
        proof {
            use_type_invariant(&*self);
        }
        match self.phase {
            Phase::AwaitingContent => {},
            Phase::Exiting => {
                return FrameStep::Exit;
            },
            _ => {
                return FrameStep::Rest;
            },
        }
        self.phase = Phase::AwaitingUi;
        match content {
            Some(view) => {
                let refreshed = self.bridge.update(view);
                match refreshed {
                    Some(_) => {
                        self.scheduler.request_repaint();
                    },
                    None => {},
                }
                FrameStep::Build { refreshed }
            },
            None => FrameStep::Build { refreshed: None },
        }
    }

    /// Takes the UI layer's report: it built its display list at `now` and
    /// wants to repaint by itself after `repaint_after`.
    pub fn ui_built(&mut self, now: u64, repaint_after: u64) -> (step: FrameStep)
        ensures
            final(self)@ == ui_answered(old(self)@, now as nat, repaint_after as nat),
            step == ui_step(old(self)@),
            coherent(final(self)@),
    {
        proof {
            use_type_invariant(&*self);
        }
        match self.phase {
            Phase::AwaitingUi => {},
            Phase::Exiting => {
                return FrameStep::Exit;
            },
            _ => {
                return FrameStep::Rest;
            },
        }
        self.scheduler.defer_repaint(now, repaint_after);
        self.phase = Phase::Idle;
        FrameStep::Present
    }

    /// Takes the UI layer's report at the instant that `clock` shows, and
    /// returns that instant with the step.
    pub fn ui_built_now(&mut self, clock: &LoopClock, repaint_after: u64) -> (timed: (
        u64,
        FrameStep,
    ))
        ensures
            final(self)@ == ui_answered(old(self)@, timed.0 as nat, repaint_after as nat),
            timed.1 == ui_step(old(self)@),
            coherent(final(self)@),
    {
        let now = clock.now();
        let step = self.ui_built(now, repaint_after);
        (now, step)
    }

    /// Of the textures that the UI layer gave up in this frame, those that the
    /// host frees once the frame is recorded.
    pub fn release_unused(&self, ids: &Vec<TextureId>) -> (released: Vec<TextureId>)
        ensures
            released@ == releasable(self@.bridge, ids@),
    {
        self.bridge.release_unused(ids)
    }

    /// Where the loop stands.
    pub fn phase(&self) -> (phase: Phase)
        ensures
            phase == self@.phase,
            coherent(self@),
    {
        proof {
            use_type_invariant(self);
        }
        self.phase
    }

    /// Whether the loop is shutting down.
    pub fn exit_requested(&self) -> (exit: bool)
        ensures
            exit == (self@.phase is Exiting),
            !exit ==> self@.surface is Configured,
    {
        proof {
            use_type_invariant(self);
        }
        match self.phase {
            Phase::Exiting => true,
            _ => false,
        }
    }

    /// The surface's state.
    pub fn surface_state(&self) -> (state: SurfaceState)
        ensures
            state == self@.surface,
            state is Fatal ==> self@.phase is Exiting,
    {
        proof {
            use_type_invariant(self);
        }
        self.surface.state()
    }

    /// The style in force.
    pub fn style(&self) -> (profile: StyleProfile)
        ensures
            profile == self@.style,
    {
        self.theme.style()
    }

    /// The composited texture, once registered.
    pub fn composited(&self) -> (texture: Option<CompositedTexture>)
        ensures
            texture == self@.bridge,
    {
        self.bridge.composited()
    }

    /// The pacing state.
    pub fn clock(&self) -> (clock: FrameClock)
        ensures
            clock.target_interval == self@.schedule.target_interval,
            clock.next_due == self@.schedule.next_due,
            clock.measured_count == self@.schedule.measured_count,
            clock.window_start == self@.schedule.window_start,
    {
        self.scheduler.clock()
    }

    /// Frames produced in the last whole second.
    pub fn frame_rate(&self) -> (rate: u32)
        ensures
            rate == self@.schedule.last_rate,
    {
        self.scheduler.frame_rate()
    }
}

/// A loop as it is made is coherent, and whatever the host reports, it stays
/// so: the surface of a loop in use is lost for good only where the loop is
/// shutting down.
pub proof fn lemma_coherence_is_kept(state: LoopState, inputs: Seq<LoopInput>)
    requires
        coherent(state),
    ensures
        coherent(ran(state, inputs)),
    decreases inputs.len(),
{
    if inputs.len() > 0 {
        lemma_coherence_is_kept(state, inputs.drop_last());
    }
}

/// Every loop in use is coherent: one made anew, after any reports of the host.
pub proof fn lemma_loop_in_use_is_coherent(
    start: nat,
    interval: nat,
    width: u32,
    height: u32,
    scale: u32,
    mode: ThemeMode,
    inputs: Seq<LoopInput>,
)
    ensures
        coherent(initial_loop(start, interval, width, height, scale, mode)),
        coherent(ran(initial_loop(start, interval, width, height, scale, mode), inputs)),
{
    lemma_coherence_is_kept(initial_loop(start, interval, width, height, scale, mode), inputs);
}

/// One iteration, one frame at most: however the host's reports come in, it is
/// never told to present more frames than iterations began, but for the frame
/// that was under way at the start.
pub proof fn lemma_one_frame_per_iteration(state: LoopState, inputs: Seq<LoopInput>)
    ensures
        frames_presented(state, inputs) + (if in_flight(ran(state, inputs)) {
            1nat
        } else {
            0nat
        }) <= iterations(inputs) + (if in_flight(state) {
            1nat
        } else {
            0nat
        }),
    decreases inputs.len(),
{
    if inputs.len() > 0 {
        lemma_one_frame_per_iteration(state, inputs.drop_last());
    }
}

/// After a frame is handed over for presentation nothing is presented until
/// the next iteration begins.
pub proof fn lemma_present_ends_iteration(state: LoopState, input: LoopInput, next: LoopInput)
    requires
        presents(state, input),
    ensures
        advanced(state, input).phase is Idle,
        presents(advanced(state, input), next) == false,
{
}

/// Running out of memory on acquisition shuts the loop down within the
/// iteration: the host is told to leave, the surface is lost for good, and
/// whatever is reported afterwards, the loop stays so and never has the host
/// touch the surface again.
pub proof fn lemma_out_of_memory_shuts_down(state: LoopState, later: Seq<LoopInput>)
    requires
        state.phase is AwaitingSurface,
    ensures
        ({
            let reported = Err::<(), AcquireOutcome>(AcquireOutcome::OutOfMemory);
            let stopped = surface_answered(state, reported);
            &&& surface_step(state, reported) == FrameStep::Exit
            &&& stopped.phase is Exiting
            &&& stopped.surface is Fatal
            &&& ran(stopped, later).phase is Exiting
            &&& ran(stopped, later).surface is Fatal
            &&& forall|input: LoopInput| !touches_surface(ran(stopped, later), input)
        }),
    decreases later.len(),
{
    let reported = Err::<(), AcquireOutcome>(AcquireOutcome::OutOfMemory);
    let stopped = surface_answered(state, reported);
    lemma_exit_is_final(stopped, later);
}

/// A loop that is shutting down stays so: no report changes its phase or its
/// surface, every step is the one to leave, and the host is never told to
/// touch the surface.
pub proof fn lemma_exit_is_final(state: LoopState, inputs: Seq<LoopInput>)
    requires
        state.phase is Exiting,
    ensures
        ran(state, inputs).phase is Exiting,
        ran(state, inputs).surface == state.surface,
        ran(state, inputs).schedule == state.schedule,
        ran(state, inputs).style == state.style,
        forall|input: LoopInput| !touches_surface(ran(state, inputs), input),
        forall|input: LoopInput| !presents(ran(state, inputs), input),
    decreases inputs.len(),
{
    if inputs.len() > 0 {
        lemma_exit_is_final(state, inputs.drop_last());
    }
}

/// Only an acquisition that runs out of memory shuts the loop down.
pub proof fn lemma_only_memory_shuts_down(state: LoopState, input: LoopInput)
    requires
        !(state.phase is Exiting),
        coherent(state),
    ensures
        advanced(state, input).phase is Exiting <==> state.phase is AwaitingSurface && input
            == (LoopInput::Surface {
            reported: Err::<(), AcquireOutcome>(AcquireOutcome::OutOfMemory),
        }),
{
}

/// A frame that was dropped for anything but want of memory is tried again:
/// the loop is between frames, the surface is as usable as before, and the
/// next iteration at or after the due time acquires a target.
pub proof fn lemma_dropped_frame_is_retried(
    state: LoopState,
    cause: AcquireOutcome,
    now: nat,
    interval: nat,
)
    requires
        state.phase is AwaitingSurface,
        coherent(state),
        !(cause is OutOfMemory),
    ensures
        ({
            let dropped = surface_answered(state, Err(cause));
            &&& surface_step(state, Err(cause)) matches FrameStep::Dropped { cause: named, .. }
                && named == cause
            &&& dropped.phase is Idle
            &&& dropped.surface == state.surface
            &&& now >= dropped.schedule.next_due ==> begin_step(dropped, now, interval)
                == FrameStep::Acquire
        }),
{
}

/// The due time of the next frame never moves back, whatever the host
/// reports.
pub proof fn lemma_due_time_never_moves_back(state: LoopState, inputs: Seq<LoopInput>)
    requires
        state.schedule.next_due <= u64::MAX,
    ensures
        state.schedule.next_due <= ran(state, inputs).schedule.next_due <= u64::MAX,
    decreases inputs.len(),
{
    if inputs.len() > 0 {
        lemma_due_time_never_moves_back(state, inputs.drop_last());
    }
}

/// Unchanged content leaves the composited texture and the scheduler as they
/// are and gives the host no texture to update, in every state of the loop.
pub proof fn lemma_unchanged_content_skips_update(state: LoopState)
    ensures
        content_answered(state, None).bridge == state.bridge,
        content_answered(state, None).schedule == state.schedule,
        !(content_step(state, None) matches FrameStep::Build { refreshed } && refreshed is Some),
{
}

/// The host is given a texture to update exactly when a frame is at the
/// content step, the content producer drew, and a texture is registered; the
/// texture then carries the registered identifier and the new view.
pub proof fn lemma_update_only_on_new_content(state: LoopState, content: Option<u64>)
    ensures
        (content_step(state, content) matches FrameStep::Build { refreshed } && refreshed is Some)
            <==> (state.phase is AwaitingContent && content is Some && state.bridge is Some),
        content_step(state, content) matches FrameStep::Build { refreshed: Some(texture) } ==> Some(
            texture.id,
        ) == identifier(state.bridge) && Some(texture.view) == content,
{
}

/// Once the content view is registered its identifier never changes, whatever
/// the host reports afterwards.
pub proof fn lemma_identifier_never_changes(state: LoopState, inputs: Seq<LoopInput>)
    requires
        state.bridge is Some,
    ensures
        identifier(ran(state, inputs).bridge) == identifier(state.bridge),
    decreases inputs.len(),
{
    if inputs.len() > 0 {
        lemma_identifier_never_changes(state, inputs.drop_last());
    }
}

/// After any run of events that report a size, each dispatched in turn, the
/// surface has the dimensions of the last of them.
pub proof fn lemma_resize_converges(state: LoopState, inputs: Seq<LoopInput>)
    requires
        !(state.phase is Exiting),
        coherent(state),
        inputs.len() > 0,
        forall|i: int| 0 <= i < inputs.len() ==> size_report(#[trigger] inputs[i]),
    ensures
        inputs.last() matches LoopInput::Pass { pass } && dimensions(ran(state, inputs).surface)
            == Some(reported_size(pass.event)),
    decreases inputs.len(),
{
    lemma_resizes_keep_running(state, inputs.drop_last());
}

/// Events that report a size neither end the loop nor make the surface
/// unusable.
pub proof fn lemma_resizes_keep_running(state: LoopState, inputs: Seq<LoopInput>)
    requires
        !(state.phase is Exiting),
        coherent(state),
        forall|i: int| 0 <= i < inputs.len() ==> size_report(#[trigger] inputs[i]),
    ensures
        ran(state, inputs).phase == state.phase,
        ran(state, inputs).surface is Configured,
    decreases inputs.len(),
{
    if inputs.len() > 0 {
        lemma_resizes_keep_running(state, inputs.drop_last());
    }
}

} // verus!
