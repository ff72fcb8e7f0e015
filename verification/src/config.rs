//! Configuration of the game: the keys of the lanes and the judgment
//! preset.

use vstd::prelude::*;
use crate::judge::JudgeParams;
use crate::text::same_text;

verus! {

/// Nanoseconds in a millisecond.
pub const NANOS_PER_MILLI: u64 = 1_000_000;

/// Key configuration.
#[derive(Clone, Debug, PartialEq, Eq)]
pub struct Keys {
    /// Key code of each lane, lane 0 first.
    pub lanes: Vec<String>,
}

/// Judgment configuration.
#[derive(Clone, Debug, PartialEq, Eq)]
pub struct Judge {
    /// Time a note takes through the visible window, in nanoseconds.
    pub visible_travel: u64,
    /// Name of the preset that gives the judgment windows.
    pub preset: String,
}

/// Configuration of the game.
#[derive(Clone, Debug, PartialEq, Eq)]
pub struct Sys {
    /// Key configuration.
    pub keys: Keys,
    /// Judgment configuration.
    pub judge: Judge,
}

/// Why a configuration cannot be used.
#[derive(Clone, Debug, PartialEq, Eq)]
pub enum ConfigError {
    /// No preset has this name.
    UnknownPreset(String),
}

/// A set of judgment windows.
pub trait JudgePreset {
    /// The windows of the preset: what `windows` gives. A preset that does
    /// not say otherwise leaves them open.
    open spec fn its_windows(&self) -> Seq<u64> {
        arbitrary()
    }

    /// Largest timing error of grades 4, 3, 2 and 1, in nanoseconds.
    fn windows(&self) -> (windows: [u64; 4])
        ensures
            windows@ == self.its_windows(),
    ;
}

/// The LR2 preset.
#[derive(Clone, Copy, Debug, PartialEq, Eq, Structural)]
pub struct LR2Preset;

/// The standard preset.
#[derive(Clone, Copy, Debug, PartialEq, Eq, Structural)]
pub struct StandardPreset;

/// The windows of both presets: 16, 36, 80 and 120 milliseconds.
pub open spec fn preset_windows() -> Seq<u64> {
    seq![16_000_000u64, 36_000_000u64, 80_000_000u64, 120_000_000u64]
}

/// Whether a preset has this name.
pub open spec fn is_preset_name(name: Seq<char>) -> bool {
    name == "LR2"@ || name == "Standard"@
}

/// The windows of both presets.
fn default_windows() -> (windows: [u64; 4])
    ensures
        windows@ == preset_windows(),
{
    let windows: [u64; 4] = [
        16 * NANOS_PER_MILLI,
        36 * NANOS_PER_MILLI,
        80 * NANOS_PER_MILLI,
        120 * NANOS_PER_MILLI,
    ];
    assert(windows@ =~= preset_windows());
    windows
}

impl JudgePreset for LR2Preset {
    open spec fn its_windows(&self) -> Seq<u64> {
        preset_windows()
    }

    fn windows(&self) -> (windows: [u64; 4])
        ensures
            windows@ == preset_windows(),
    {
        default_windows()
    }
}

impl JudgePreset for StandardPreset {
    open spec fn its_windows(&self) -> Seq<u64> {
        preset_windows()
    }

    fn windows(&self) -> (windows: [u64; 4])
        ensures
            windows@ == preset_windows(),
    {
        default_windows()
    }
}

impl Judge {
    /// The preset that the configuration names. A name that no preset has
    /// is an error.
    pub fn preset_impl(&self) -> (preset: Result<Box<dyn JudgePreset>, ConfigError>)
        ensures
            match preset {
                Ok(found) => is_preset_name(self.preset@) && found.its_windows() == preset_windows(),
                Err(ConfigError::UnknownPreset(name)) => !is_preset_name(self.preset@) && name@
                    == self.preset@,
            },
    {
        if same_text(self.preset.as_str(), "LR2") {
            Ok(Box::new(LR2Preset))
        } else if same_text(self.preset.as_str(), "Standard") {
            Ok(Box::new(StandardPreset))
        } else {
            Err(ConfigError::UnknownPreset(self.preset.clone()))
        }
    }

    /// The judgment windows of the preset that the configuration names.
    pub fn windows(&self) -> (windows: Result<[u64; 4], ConfigError>)
        ensures
            match windows {
                Ok(w) => is_preset_name(self.preset@) && w@ == preset_windows(),
                Err(ConfigError::UnknownPreset(name)) => !is_preset_name(self.preset@) && name@
                    == self.preset@,
            },
    {
        if same_text(self.preset.as_str(), "LR2") {
            Ok(LR2Preset.windows())
        } else if same_text(self.preset.as_str(), "Standard") {
            Ok(StandardPreset.windows())
        } else {
            Err(ConfigError::UnknownPreset(self.preset.clone()))
        }
    }

    /// The timing configuration of a game under this configuration.
    pub fn params(&self) -> (params: Result<JudgeParams, ConfigError>)
        ensures
            match params {
                Ok(p) => is_preset_name(self.preset@) && p.travel == self.visible_travel
                    && p.windows@ == preset_windows(),
                Err(ConfigError::UnknownPreset(name)) => !is_preset_name(self.preset@) && name@
                    == self.preset@,
            },
    {
        match self.windows() {
            Ok(windows) => Ok(JudgeParams { travel: self.visible_travel, windows }),
            Err(e) => Err(e),
        }
    }
}

} // verus!
