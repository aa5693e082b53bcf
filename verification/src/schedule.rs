//! Frame pacing: whether a frame is due, and how fast frames come.
//!
//! Instants and durations are nanoseconds on the host's monotonic clock,
//! counted from an origin that the host picks once. Arithmetic that would pass
//! the largest instant stops there.

use vstd::prelude::*;

verus! {

/// Length of the window over which produced frames are counted.
pub const NANOS_PER_SECOND: u64 = 1_000_000_000;

/// What to do in this iteration of the loop.
#[derive(Clone, Copy, Debug, PartialEq, Eq, Structural)]
pub enum FrameDecision {
    /// No frame: too early, or nothing asks to be painted.
    Skip,
    /// Produce and present one frame.
    Produce,
}

/// The pacing state proper.
#[derive(Clone, Copy, Debug, PartialEq, Eq, Structural)]
pub struct FrameClock {
    /// Time between two frames at the target rate.
    pub target_interval: u64,
    /// Earliest instant of the next frame.
    pub next_due: u64,
    /// Frames produced since `window_start`.
    pub measured_count: u32,
    /// Start of the current counting window.
    pub window_start: u64,
}

/// Mathematical state of a scheduler.
pub struct Schedule {
    pub target_interval: nat,
    pub next_due: nat,
    pub measured_count: nat,
    pub window_start: nat,
    /// Somebody asked for a repaint since the last produced frame.
    pub repaint_requested: bool,
    /// Instant from which the UI layer wants to repaint by itself.
    pub repaint_due: nat,
    /// Frames counted in the last window that was closed.
    pub last_rate: nat,
}

/// `t`, or the largest instant where `t` lies beyond it.
pub open spec fn clamp_instant(t: nat) -> nat {
    if t > u64::MAX {
        u64::MAX as nat
    } else {
        t
    }
}

/// The UI layer has something to paint at `now`: a repaint was requested, or
/// the deferral that it reported has run out.
pub open spec fn wants_repaint(s: Schedule, now: nat) -> bool {
    s.repaint_requested || now >= s.repaint_due
}

/// A frame is produced at `now`.
pub open spec fn frame_due(s: Schedule, now: nat) -> bool {
    wants_repaint(s, now) && now >= s.next_due
}

/// The decision taken at `now`.
pub open spec fn decision_at(s: Schedule, now: nat) -> FrameDecision {
    if frame_due(s, now) {
        FrameDecision::Produce
    } else {
        FrameDecision::Skip
    }
}

/// Due time of the frame after the one produced at `now`, as it is meant: one
/// interval after the previous due time, or one interval after `now` where
/// that is already past.
pub open spec fn resumed(next_due: nat, interval: nat, now: nat) -> nat {
    if next_due + interval < now {
        now + interval
    } else {
        next_due + interval
    }
}

/// Due time of the frame after the one produced at `now`, as far as 64 bits
/// go.
pub open spec fn rescheduled(next_due: nat, interval: nat, now: nat) -> nat {
    clamp_instant(resumed(next_due, interval, now))
}

/// Whole seconds between the start of the counting window and `now`.
pub open spec fn whole_seconds(window_start: nat, now: nat) -> nat {
    if now >= window_start {
        (now - window_start) as nat / (NANOS_PER_SECOND as nat)
    } else {
        0
    }
}

/// One more frame, up to the largest count that fits.
pub open spec fn counted(count: nat) -> nat {
    if count + 1 > u32::MAX {
        u32::MAX as nat
    } else {
        count + 1
    }
}

/// State after the iteration at `now`. A skipped iteration changes nothing. A
/// produced frame consumes the repaint request, moves the due time on, and is
/// counted; when at least one whole second of the window has gone by, the count
/// becomes the rate and the window moves on by the whole seconds gone by, so
/// that what is left of the last second stays in the new window.
pub open spec fn after_iteration(s: Schedule, now: nat) -> Schedule {
    if !frame_due(s, now) {
        s
    } else {
        let seconds = whole_seconds(s.window_start, now);
        let count = counted(s.measured_count);
        Schedule {
            next_due: rescheduled(s.next_due, s.target_interval, now),
            repaint_requested: false,
            measured_count: if seconds >= 1 {
                0
            } else {
                count
            },
            last_rate: if seconds >= 1 {
                count
            } else {
                s.last_rate
            },
            window_start: s.window_start + seconds * (NANOS_PER_SECOND as nat),
            ..s
        }
    }
}

/// State of a scheduler made at `start` for frames every `interval`: the first
/// frame is due at once and is asked for.
pub open spec fn initial_schedule(start: nat, interval: nat) -> Schedule {
    Schedule {
        target_interval: interval,
        next_due: start,
        measured_count: 0,
        window_start: start,
        repaint_requested: true,
        repaint_due: start,
        last_rate: 0,
    }
}

/// Decides once per loop iteration whether a frame is produced.
pub struct FrameScheduler {
    clock: FrameClock,
    repaint_requested: bool,
    repaint_due: u64,
    last_rate: u32,
}

impl View for FrameScheduler {
    type V = Schedule;

    closed spec fn view(&self) -> Schedule {
        Schedule {
            target_interval: self.clock.target_interval as nat,
            next_due: self.clock.next_due as nat,
            measured_count: self.clock.measured_count as nat,
            window_start: self.clock.window_start as nat,
            repaint_requested: self.repaint_requested,
            repaint_due: self.repaint_due as nat,
            last_rate: self.last_rate as nat,
        }
    }
}

impl FrameScheduler {
    /// A scheduler that starts at `start` and aims at one frame every
    /// `target_interval`.
    pub fn new(start: u64, target_interval: u64) -> (scheduler: FrameScheduler)
        ensures
            scheduler@ == initial_schedule(start as nat, target_interval as nat),
    {
        FrameScheduler {
            clock: FrameClock {
                target_interval,
                next_due: start,
                measured_count: 0,
                window_start: start,
            },
            repaint_requested: true,
            repaint_due: start,
            last_rate: 0,
        }
    }

    /// Takes over the frame duration that the preferences give. The due time
    /// that is already set stays.
    pub fn set_target_interval(&mut self, target_interval: u64)
        ensures
            final(self)@ == (Schedule { target_interval: target_interval as nat, ..old(self)@ }),
        no_unwind
    {
        self.clock.target_interval = target_interval;
    }

    /// Notes that something is dirty and must be painted with the next frame,
    /// whatever the UI layer's own deferral says.
    pub fn request_repaint(&mut self)
        ensures
            final(self)@ == (Schedule { repaint_requested: true, ..old(self)@ }),
        no_unwind
    {
        self.repaint_requested = true;
    }

    /// Notes the deferral that the UI layer reported at `now`: it wants to
    /// repaint by itself once `repaint_after` has gone by, at once where that
    /// is zero.
    pub fn defer_repaint(&mut self, now: u64, repaint_after: u64)
        ensures
            final(self)@ == (Schedule {
                repaint_due: clamp_instant((now + repaint_after) as nat),
                ..old(self)@
            }),
        no_unwind
    {
        self.repaint_due = if repaint_after > u64::MAX - now {
            u64::MAX
        } else {
            now + repaint_after
        };
    }

    /// The decision for the loop iteration at `now`, and the bookkeeping that
    /// goes with it.
    pub fn on_loop_iteration(&mut self, now: u64) -> (decision: FrameDecision)
        ensures
            decision == decision_at(old(self)@, now as nat),
            final(self)@ == after_iteration(old(self)@, now as nat),
            final(self)@.next_due >= old(self)@.next_due,
            decision == FrameDecision::Produce ==> now <= final(self)@.next_due <= now + old(
                self,
            )@.target_interval,
            decision == FrameDecision::Produce && now + old(self)@.target_interval <= u64::MAX
                ==> final(self)@.next_due == resumed(
                old(self)@.next_due,
                old(self)@.target_interval,
                now as nat,
            ),
        no_unwind
    {
        if !(self.repaint_requested || now >= self.repaint_due) || now < self.clock.next_due {
            return FrameDecision::Skip;
        }
        let interval: u64 = self.clock.target_interval;
        let next_due: u64 = if interval > u64::MAX - self.clock.next_due {
            u64::MAX
        } else if self.clock.next_due + interval >= now {
            self.clock.next_due + interval
        } else if interval > u64::MAX - now {
            u64::MAX
        } else {
            now + interval
        };
        let count: u32 = if self.clock.measured_count < u32::MAX {
            self.clock.measured_count + 1
        } else {
            u32::MAX
        };
        let seconds: u64 = if now >= self.clock.window_start {
            (now - self.clock.window_start) / NANOS_PER_SECOND
        } else {
            0
        };
        if seconds >= 1 {
            self.last_rate = count;
            self.clock.measured_count = 0;
            self.clock.window_start = self.clock.window_start + seconds * NANOS_PER_SECOND;
        } else {
            self.clock.measured_count = count;
        }
        self.clock.next_due = next_due;
        self.repaint_requested = false;
        FrameDecision::Produce
    }

    /// Whether the UI layer has something to paint at `now`.
    pub fn repaint_pending(&self, now: u64) -> (pending: bool)
        ensures
            pending == wants_repaint(self@, now as nat),
    {
        self.repaint_requested || now >= self.repaint_due
    }

    /// The pacing state.
    pub fn clock(&self) -> (clock: FrameClock)
        ensures
            clock.target_interval == self@.target_interval,
            clock.next_due == self@.next_due,
            clock.measured_count == self@.measured_count,
            clock.window_start == self@.window_start,
    {
        self.clock
    }

    /// Frames produced in the last whole window.
    pub fn frame_rate(&self) -> (rate: u32)
        ensures
            rate == self@.last_rate,
    {
        self.last_rate
    }
}

/// The due time never moves back, whatever the iteration decides.
pub proof fn lemma_next_due_monotonic(s: Schedule, now: nat)
    requires
        s.next_due <= u64::MAX,
    ensures
        after_iteration(s, now).next_due >= s.next_due,
{
}

/// After a frame produced at `now` the next one is due no earlier than `now`
/// and no later than one interval after it, however long the loop had stalled:
/// a stall leaves no backlog of frames to catch up with.
pub proof fn lemma_no_backlog(s: Schedule, now: nat)
    requires
        now <= u64::MAX,
        frame_due(s, now),
    ensures
        now <= after_iteration(s, now).next_due <= now + s.target_interval,
{
}

/// The due time after a frame produced at `now`, wherever one interval after
/// `now` is an instant that 64 bits hold: one interval after the old due time,
/// or one interval after `now` where that is already past. It lies between
/// `now` and one interval after it however long the loop had stalled, it is
/// one interval after `now` exactly after a stall of more than one interval,
/// and every iteration before it is skipped: no burst of frames catches up.
pub proof fn lemma_due_time_after_frame(s: Schedule, now: nat, later: nat)
    requires
        frame_due(s, now),
        now + s.target_interval <= u64::MAX,
    ensures
        after_iteration(s, now).next_due == resumed(s.next_due, s.target_interval, now),
        now <= after_iteration(s, now).next_due <= now + s.target_interval,
        now - s.next_due > s.target_interval ==> after_iteration(s, now).next_due == now
            + s.target_interval,
        later < after_iteration(s, now).next_due ==> decision_at(after_iteration(s, now), later)
            == FrameDecision::Skip,
        s.target_interval > 0 && now <= later < now + s.target_interval && now - s.next_due
            > s.target_interval ==> decision_at(after_iteration(s, now), later)
            == FrameDecision::Skip,
{
}

/// After a stall of more than one interval the due time is put one interval
/// after `now` exactly.
pub proof fn lemma_stall_resynchronises(s: Schedule, now: nat)
    requires
        frame_due(s, now),
        now > s.next_due + s.target_interval,
        now + s.target_interval <= u64::MAX,
    ensures
        after_iteration(s, now).next_due == now + s.target_interval,
{
}

/// A frame produced at `now` is followed by a skip in every iteration before
/// the new due time, and those iterations change nothing.
pub proof fn lemma_skip_until_due(s: Schedule, now: nat, later: nat)
    requires
        frame_due(s, now),
        later < after_iteration(s, now).next_due,
    ensures
        decision_at(after_iteration(s, now), later) == FrameDecision::Skip,
        after_iteration(after_iteration(s, now), later) == after_iteration(s, now),
{
}

/// The counting window moves by whole seconds only, never past `now`, and
/// after a produced frame less than one second of it is left open.
pub proof fn lemma_window_whole_seconds(s: Schedule, now: nat)
    requires
        frame_due(s, now),
        now >= s.window_start,
    ensures
        ({
            let t = after_iteration(s, now);
            &&& t.window_start == s.window_start + whole_seconds(s.window_start, now) * (
            NANOS_PER_SECOND as nat)
            &&& t.window_start <= now
            &&& now - t.window_start < NANOS_PER_SECOND
            &&& (now - t.window_start) % (NANOS_PER_SECOND as int) == (now - s.window_start) % (
            NANOS_PER_SECOND as int)
        }),
{
}

} // verus!
