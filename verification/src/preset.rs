//! Presets: a named argument list for the DPI engine, and the engine's
//! error type.

use vstd::prelude::*;

verus! {

#[derive(Debug, Clone, Copy, PartialEq, Eq, Structural)]
pub enum PresetCategory {
    Standard,
    Custom,
}

impl Default for PresetCategory {
    fn default() -> (c: Self)
        ensures
            c == PresetCategory::Standard,
    {
        PresetCategory::Standard
    }
}

/// A preset as stored and shown to the user.
#[derive(Debug, Clone, PartialEq, Eq)]
pub struct Preset {
    pub id: String,
    pub label: String,
    pub description: String,
    pub icon: String,
    pub args: Vec<String>,
    pub is_custom: bool,
    pub priority: u8,
    pub category: PresetCategory,
}

/// Errors of the engine's planning and lifecycle.
#[derive(Debug, Clone, PartialEq, Eq)]
pub enum EngineError {
    InvalidPreset(String),
    ConfigParseError(String),
    IoError(String),
    BinaryNotFound(String),
    SpawnFailed(String),
    AuthorizationFailed(String),
    AlreadyRunning,
    NotRunning,
    InsufficientPrivileges,
}

/// `EngineError` with its texts as character sequences.
pub enum EngineErrorView {
    InvalidPreset(Seq<char>),
    ConfigParseError(Seq<char>),
    IoError(Seq<char>),
    BinaryNotFound(Seq<char>),
    SpawnFailed(Seq<char>),
    AuthorizationFailed(Seq<char>),
    AlreadyRunning,
    NotRunning,
    InsufficientPrivileges,
}

impl View for EngineError {
    type V = EngineErrorView;

    open spec fn view(&self) -> EngineErrorView {
        match self {
            EngineError::InvalidPreset(m) => EngineErrorView::InvalidPreset(m@),
            EngineError::ConfigParseError(m) => EngineErrorView::ConfigParseError(m@),
            EngineError::IoError(m) => EngineErrorView::IoError(m@),
            EngineError::BinaryNotFound(m) => EngineErrorView::BinaryNotFound(m@),
            EngineError::SpawnFailed(m) => EngineErrorView::SpawnFailed(m@),
            EngineError::AuthorizationFailed(m) => EngineErrorView::AuthorizationFailed(m@),
            EngineError::AlreadyRunning => EngineErrorView::AlreadyRunning,
            EngineError::NotRunning => EngineErrorView::NotRunning,
            EngineError::InsufficientPrivileges => EngineErrorView::InsufficientPrivileges,
        }
    }
}

} // verus!
