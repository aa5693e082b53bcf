//! The style in force, and the one place that changes it.

use crate::event::ThemeMode;
use vstd::prelude::*;

verus! {

/// What the host reports about its appearance when the program starts.
#[derive(Clone, Copy, Debug, PartialEq, Eq, Structural)]
pub enum HostTheme {
    Light,
    Dark,
    /// The host states no preference, or none could be read.
    Unspecified,
}

/// Adjustments laid over the base visuals, in percent of the base value.
#[derive(Clone, Copy, Debug, PartialEq, Eq, Structural)]
pub struct StyleOverrides {
    /// Width of the background stroke of every widget state (idle, inactive,
    /// hovered, active, open).
    pub stroke_width_percent: u32,
    /// Width of the smallest area that reacts to the pointer.
    pub interact_width_percent: u32,
}

/// A complete style: base visuals for a mode, and the overrides on top.
#[derive(Clone, Copy, Debug, PartialEq, Eq, Structural)]
pub struct StyleProfile {
    pub base: ThemeMode,
    pub overrides: StyleOverrides,
}

/// The overrides, which are the same whatever the mode.
pub open spec fn fixed_overrides() -> StyleOverrides {
    StyleOverrides { stroke_width_percent: 200, interact_width_percent: 120 }
}

/// The style that `mode` stands for.
pub open spec fn profile_for(mode: ThemeMode) -> StyleProfile {
    StyleProfile { base: mode, overrides: fixed_overrides() }
}

/// The mode to start in: the host's preference where it states one, dark
/// otherwise.
pub open spec fn initial_mode(host: HostTheme) -> ThemeMode {
    match host {
        HostTheme::Light => ThemeMode::Light,
        HostTheme::Dark => ThemeMode::Dark,
        HostTheme::Unspecified => ThemeMode::Dark,
    }
}

/// Owner of the style. Nothing else changes it.
pub struct ThemeManager {
    style: StyleProfile,
}

impl View for ThemeManager {
    type V = StyleProfile;

    closed spec fn view(&self) -> StyleProfile {
        self.style
    }
}

impl ThemeManager {
    /// A manager whose style is the profile of `mode`.
    pub fn new(mode: ThemeMode) -> (manager: ThemeManager)
        ensures
            manager@ == profile_for(mode),
    {
        ThemeManager {
            style: StyleProfile {
                base: mode,
                overrides: StyleOverrides {
                    stroke_width_percent: 200,
                    interact_width_percent: 120,
                },
            },
        }
    }

    /// Chooses the starting mode from what the host reported.
    pub fn detect_initial(host: HostTheme) -> (mode: ThemeMode)
        ensures
            mode == initial_mode(host),
    {
        match host {
            HostTheme::Light => ThemeMode::Light,
            HostTheme::Dark => ThemeMode::Dark,
            HostTheme::Unspecified => ThemeMode::Dark,
        }
    }

    /// Puts the profile of `mode` in force and returns it for the host to hand
    /// to the UI layer.
    pub fn apply(&mut self, mode: ThemeMode) -> (profile: StyleProfile)
        ensures
            final(self)@ == profile_for(mode),
            profile == profile_for(mode),
        no_unwind
    {
        let profile = StyleProfile {
            base: mode,
            overrides: StyleOverrides { stroke_width_percent: 200, interact_width_percent: 120 },
        };
        self.style = profile;
        profile
    }

    /// The style in force.
    pub fn style(&self) -> (profile: StyleProfile)
        ensures
            profile == self@,
    {
        self.style
    }

    /// The mode whose profile is in force.
    pub fn mode(&self) -> (mode: ThemeMode)
        ensures
            mode == self@.base,
    {
        self.style.base
    }
}

/// Light and dark differ in their base visuals and in nothing else: the
/// overrides do not depend on the mode.
pub proof fn lemma_overrides_ignore_mode(a: ThemeMode, b: ThemeMode)
    ensures
        profile_for(a).overrides == profile_for(b).overrides,
        profile_for(a).base == a,
        profile_for(b).base == b,
        a != b ==> profile_for(a) != profile_for(b),
{
}

/// Applying a mode twice leaves the style that applying it once left.
pub proof fn lemma_apply_idempotent(mode: ThemeMode)
    ensures
        profile_for(profile_for(mode).base) == profile_for(mode),
{
}

} // verus!
