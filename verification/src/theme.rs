//! Theme preference and the small value types the interface passes around.
use vstd::prelude::*;

verus! {

/// The theme the user asked for; `System` follows the host.
#[derive(Clone, Copy, Debug, PartialEq, Eq, Structural)]
pub enum ThemeMode {
    Dark,
    Light,
    System,
}

/// Whether the dark palette applies for `mode` when the host is dark
/// (`system_is_dark`) or not.
pub open spec fn resolve_spec(mode: ThemeMode, system_is_dark: bool) -> bool {
    match mode {
        ThemeMode::Dark => true,
        ThemeMode::Light => false,
        ThemeMode::System => system_is_dark,
    }
}

impl ThemeMode {
    /// The concrete dark/light choice given the host's current theme.
    pub fn resolve(self, system_is_dark: bool) -> (dark: bool)
        ensures
            dark == resolve_spec(self, system_is_dark),
    {
        match self {
            ThemeMode::Dark => true,
            ThemeMode::Light => false,
            ThemeMode::System => system_is_dark,
        }
    }
}

/// The glyph painted on the round start/stop button.
#[derive(Clone, Copy, Debug, PartialEq, Eq, Structural)]
pub enum FabIcon {
    Play,
    Stop,
}

/// What a modal dialog reports after a frame.
#[derive(Clone, Copy, Debug, PartialEq, Eq, Structural)]
pub struct ModalResult {
    /// A requested close has finished its exit animation, so the caller
    /// may drop the dialog's state.
    pub close_requested: bool,
}

} // verus!
