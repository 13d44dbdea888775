//! Configuration shapes read by the server shell, with the small decisions
//! taken over fresh configuration values.

use vstd::prelude::*;

use crate::text::str_eq;

verus! {

/// One tool's entry in the tool-configuration list.
pub struct MCPToolConfig {
    pub id: String,
    pub name: String,
    pub description: String,
    pub enabled: bool,
    pub can_disable: bool,
    pub icon: String,
    pub icon_bg: String,
    pub dark_icon_bg: String,
    pub has_config: bool,
}

/// Log verbosity, most severe first.
#[derive(Clone, Copy, PartialEq, Eq, Structural, Debug)]
pub enum LogLevel {
    Off,
    Error,
    Warn,
    Info,
    Debug,
    Trace,
}

/// How log files are rotated.
pub struct LogRotationConfig {
    pub max_size_bytes: u64,
    pub retention_days: u32,
    pub max_backup_count: u32,
}

impl Default for LogRotationConfig {
    /// Two hundred mebibytes per file, seven days retention, five backups.
    fn default() -> (r: LogRotationConfig)
        ensures
            r.max_size_bytes == 200 * 1024 * 1024,
            r.retention_days == 7,
            r.max_backup_count == 5,
    {
        LogRotationConfig { max_size_bytes: 200 * 1024 * 1024, retention_days: 7, max_backup_count: 5 }
    }
}

/// Logging configuration of one process.
pub struct LogConfig {
    pub level: LogLevel,
    pub file_path: Option<String>,
    pub is_mcp_mode: bool,
    pub rotation: LogRotationConfig,
}

impl Default for LogConfig {
    /// Warnings only, no file, not in coordinator mode, stock rotation.
    fn default() -> (r: LogConfig)
        ensures
            r.level == LogLevel::Warn,
            r.file_path is None,
            !r.is_mcp_mode,
            r.rotation.max_size_bytes == 200 * 1024 * 1024,
            r.rotation.retention_days == 7,
            r.rotation.max_backup_count == 5,
    {
        LogConfig {
            level: LogLevel::Warn,
            file_path: None,
            is_mcp_mode: false,
            rotation: LogRotationConfig::default(),
        }
    }
}

/// Whether a log file has grown past its rotation bound.
pub fn needs_rotation(size_bytes: u64, max_size_bytes: u64) -> (r: bool)
    ensures
        r == (size_bytes >= max_size_bytes),
{
    size_bytes >= max_size_bytes
}

/// Whether a tool is enabled: a tool not named in the configuration is
/// enabled.
pub fn tool_enabled(configured: Option<bool>) -> (r: bool)
    ensures
        r == match configured {
            Some(v) => v,
            None => true,
        },
{
    match configured {
        Some(v) => v,
        None => true,
    }
}

/// Whether background indexing is enabled: it is off unless the
/// configuration turns it on.
pub fn is_index_enabled(configured: Option<bool>) -> (r: bool)
    ensures
        r == match configured {
            Some(v) => v,
            None => false,
        },
{
    match configured {
        Some(v) => v,
        None => false,
    }
}

/// The tools the server dispatches on, by their wire names.
#[derive(Clone, Copy, PartialEq, Eq, Structural, Debug)]
pub enum ToolKind {
    Prompt,
    PromptSync,
    GetResult,
    Memory,
    Search,
    Docs,
    Unknown,
}

/// Which tool a call names.
pub open spec fn tool_of_name(name: Seq<char>) -> ToolKind {
    if name == "prompt"@ {
        ToolKind::Prompt
    } else if name == "prompt_sync"@ {
        ToolKind::PromptSync
    } else if name == "get_result"@ {
        ToolKind::GetResult
    } else if name == "memory"@ {
        ToolKind::Memory
    } else if name == "sou"@ {
        ToolKind::Search
    } else if name == "context7"@ {
        ToolKind::Docs
    } else {
        ToolKind::Unknown
    }
}

/// Dispatches a tool call by name.
pub fn tool_kind_for_name(name: &str) -> (r: ToolKind)
    ensures
        r == tool_of_name(name@),
{
    if str_eq(name, "prompt") {
        ToolKind::Prompt
    } else if str_eq(name, "prompt_sync") {
        ToolKind::PromptSync
    } else if str_eq(name, "get_result") {
        ToolKind::GetResult
    } else if str_eq(name, "memory") {
        ToolKind::Memory
    } else if str_eq(name, "sou") {
        ToolKind::Search
    } else if str_eq(name, "context7") {
        ToolKind::Docs
    } else {
        ToolKind::Unknown
    }
}

} // verus!
