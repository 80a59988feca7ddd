//! The startup configuration and what the host does with it.
use vstd::prelude::*;

verus! {

/// The startup configuration record, read once from the configuration file.
#[derive(Clone, Copy, Debug, PartialEq, Eq, Structural)]
pub struct GameConfig {
    /// Start with the in-process world inspector instead of the stripe layout.
    pub editor_mode: bool,
}

/// How the window presents frames.
#[derive(Clone, Copy, Debug, PartialEq, Eq, Structural)]
pub enum PresentMode {
    /// Vertical sync, relaxed where the platform offers it.
    AutoVsync,
    /// No vertical sync where the platform offers it.
    AutoNoVsync,
    /// Frames are shown at once, without waiting for vertical blanking.
    Immediate,
    /// The newest frame replaces a queued one at vertical blanking.
    Mailbox,
    /// Frames queue up and are shown one per vertical blanking.
    Fifo,
}

/// The descriptor of the primary window, asked for before the window exists.
#[derive(Clone, Copy, Debug, PartialEq, Eq, Structural)]
pub struct InitialWindow {
    pub transparent: bool,
    pub decorations: bool,
    pub x: i32,
    pub y: i32,
    pub width: u32,
    pub height: u32,
    pub present_mode: PresentMode,
}

/// The branch that startup takes after the window has been asked for.
#[derive(Clone, Copy, Debug, PartialEq, Eq, Structural)]
pub enum StartupMode {
    /// Add the world inspector overlay; the window keeps its initial geometry.
    Inspector,
    /// Move and resize the primary window into the stripe on its monitor.
    Stripe,
}

/// Everything startup decides before the engine's main loop runs.
#[derive(Clone, Copy, Debug, PartialEq, Eq, Structural)]
pub struct StartupPlan {
    pub window: InitialWindow,
    pub mode: StartupMode,
}

/// The primary window as first created: transparent, borderless, at the
/// screen's origin, 1920 by 1080 pixels, presenting immediately.
pub open spec fn initial_window_spec() -> InitialWindow {
    InitialWindow {
        transparent: true,
        decorations: false,
        x: 0,
        y: 0,
        width: 1920,
        height: 1080,
        present_mode: PresentMode::Immediate,
    }
}

/// The branch that a configuration selects.
pub open spec fn mode_of(config: GameConfig) -> StartupMode {
    if config.editor_mode {
        StartupMode::Inspector
    } else {
        StartupMode::Stripe
    }
}

/// Builds the descriptor of the primary window.
pub fn initial_window() -> (w: InitialWindow)
    ensures
        w == initial_window_spec(),
{
    InitialWindow {
        transparent: true,
        decorations: false,
        x: 0,
        y: 0,
        width: 1920,
        height: 1080,
        present_mode: PresentMode::Immediate,
    }
}

impl GameConfig {
    /// The branch that this configuration selects: the inspector in editor
    /// mode, the stripe layout otherwise.
    pub fn startup_mode(&self) -> (m: StartupMode)
        ensures
            m == mode_of(*self),
            m == StartupMode::Inspector <==> self.editor_mode,
    {
        if self.editor_mode {
            StartupMode::Inspector
        } else {
            StartupMode::Stripe
        }
    }
}

/// Decides the startup of the application from its configuration.
pub fn plan_startup(config: &GameConfig) -> (p: StartupPlan)
    ensures
        p.window == initial_window_spec(),
        p.mode == mode_of(*config),
{
    StartupPlan { window: initial_window(), mode: config.startup_mode() }
}

} // verus!
