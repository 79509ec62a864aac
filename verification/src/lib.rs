//! A verified model of the Lua language server's configuration file, `.luarc.json`,
//! and of the addon manager that installs Lua definition libraries and records them in
//! that file.
//!
//! - `diagnostics`, `options`, `sections` and `rc` describe the file: its enumerated
//!   values, its sections with their defaults, and the whole file with the builder that
//!   chooses the custom type carried by each section.
//! - `serde_rules`, `diagnostic_serde`, `hover_serde` and `workspace_serde` hold the
//!   values a missing setting takes and the rules by which settings are left out when the
//!   file is written.
//! - `addon`, `git`, `error` and `manager` hold the addon manager: how an addon source is
//!   read, which git commands are run, and how the file is updated.
//! - `text` holds the character-level string operations the rest is built on.

pub mod text;
pub mod diagnostics;
pub mod serde_rules;
pub mod diagnostic_serde;
pub mod hover_serde;
pub mod workspace_serde;
pub mod options;
pub mod distinct;
pub mod sections;
pub mod rc;
pub mod error;
pub mod git;
pub mod addon;
pub mod manager;

pub use diagnostics::{Diagnostic, DiagnosticGroup};
pub use options::{
    CheckThirdParty, CheckThirdPartyValue, Encoding, Event, FileState, FileStatus, Files,
    GroupSeverity, Index, ParamName, SemiColon, Severity, Show, Snippet, Status,
};
pub use sections::{
    AddonManager, Completion, Diagnostics, Doc, Format, Hint, Hover, Misc, Runtime, Semantic,
    SignatureHelp, Spell, Type, Window, Workspace,
};
pub use rc::{LuaRc, LuaRcBuilder};
pub use addon::Addon;
pub use error::Error;
pub use git::Git;
pub use manager::Manager;
