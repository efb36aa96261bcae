//! Configuration enums shared by the session and its clients.

use vstd::prelude::*;
use crate::text::{same_text, text_of, trim_text, trimmed};

verus! {

/// How much of the model's reasoning is summarised.
#[derive(Debug, Clone, Copy, PartialEq, Eq, Structural, Default)]
pub enum ReasoningSummary {
    #[default]
    Auto,
    Concise,
    Detailed,
    /// No reasoning summaries; written `none` in configuration.
    Disabled,
}

/// Output length and detail.
#[derive(Debug, Clone, Copy, PartialEq, Eq, Structural, Hash, Default)]
pub enum Verbosity {
    Low,
    #[default]
    Medium,
    High,
}

/// The language of user-facing text.
#[derive(Debug, Clone, Copy, PartialEq, Eq, Structural, Default)]
pub enum Language {
    #[default]
    En,
    ZhCn,
}

/// The sandbox mode a user configures.
#[derive(Debug, Clone, Copy, PartialEq, Eq, Structural, Default)]
pub enum SandboxMode {
    #[default]
    ReadOnly,
    WorkspaceWrite,
    DangerFullAccess,
}

/// A login method the configuration may force.
#[derive(Debug, Clone, Copy, PartialEq, Eq, Structural)]
pub enum ForcedLoginMethod {
    Chatgpt,
    Api,
}

/// How far a project directory is trusted.
#[derive(Debug, Clone, Copy, PartialEq, Eq, Structural)]
pub enum TrustLevel {
    Trusted,
    Untrusted,
}

/// What `str::to_lowercase` returns for a text.
pub uninterp spec fn lower_of(s: Seq<char>) -> Seq<char>;

/// Relies on `str::to_lowercase`: the lowercase form depends on the text
/// alone.
#[verifier::external_body]
pub(crate) fn lowercase(s: &str) -> (r: String)
    ensures
        r@ == lower_of(s@),
{
    s.to_lowercase()
}

/// The language a configured tag names, where the tag is already trimmed
/// and lowercased: `zh-cn`, `zh_cn`, `zh-hans` and `zh` name simplified
/// Chinese, everything else English.
pub open spec fn language_of_normalized(t: Seq<char>) -> Language {
    if t == "zh-cn"@ || t == "zh_cn"@ || t == "zh-hans"@ || t == "zh"@ {
        Language::ZhCn
    } else {
        Language::En
    }
}

pub fn language_from_normalized(t: &str) -> (r: Language)
    ensures
        r == language_of_normalized(t@),
{
    if same_text(t, "zh-cn") || same_text(t, "zh_cn") || same_text(t, "zh-hans") || same_text(
        t,
        "zh",
    ) {
        Language::ZhCn
    } else {
        Language::En
    }
}

impl Language {
    /// The language a configured tag names, ignoring case and surrounding
    /// white space; unknown tags fall back to English.
    pub fn from_tag(raw: &str) -> (r: Language)
        ensures
            r == language_of_normalized(lower_of(trimmed(raw@))),
    {
        let t = trim_text(raw);
        let l = lowercase(t.as_str());
        language_from_normalized(l.as_str())
    }

    /// The tag a language is written with.
    pub fn as_str(self) -> (r: String)
        ensures
            self == Language::En ==> r@ == "en"@,
            self == Language::ZhCn ==> r@ == "zh-cn"@,
    {
        match self {
            Language::En => text_of("en"),
            Language::ZhCn => text_of("zh-cn"),
        }
    }
}

impl SandboxMode {
    pub fn as_str(self) -> (r: String)
        ensures
            self == SandboxMode::ReadOnly ==> r@ == "read-only"@,
            self == SandboxMode::WorkspaceWrite ==> r@ == "workspace-write"@,
            self == SandboxMode::DangerFullAccess ==> r@ == "danger-full-access"@,
    {
        match self {
            SandboxMode::ReadOnly => text_of("read-only"),
            SandboxMode::WorkspaceWrite => text_of("workspace-write"),
            SandboxMode::DangerFullAccess => text_of("danger-full-access"),
        }
    }
}

} // verus!
