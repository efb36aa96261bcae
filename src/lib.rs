//! Run-time core of a coding-agent CLI: token accounting, localisation
//! catalogs, the tool registry and its handlers (batch file reads, tool-name
//! adapters), sandboxed command bracketing with hierarchical cancellation, a
//! git branch workflow, conversation compaction and the session that
//! sequences them, plus the small state machines of the interactive prompts.

pub mod text;
pub mod token_usage;
pub mod protocol;
pub mod exec;
pub mod sdd_git;
pub mod config_types;
pub mod i18n;
pub mod tools;
pub mod batch_read;
pub mod tool_adapter;
pub mod compact;
pub mod session;
pub mod slash_command;
pub mod update_action;
pub mod keys;
pub mod onboarding;
pub mod model_migration;
pub mod additional_dirs;
pub mod review_prompts;
pub mod tooltips;
pub mod ui_text;
pub mod cancellation;
