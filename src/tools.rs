//! The tool registry: handlers are registered by name with the payload kind
//! they accept, and a call is checked against both before any handler runs.

use vstd::prelude::*;
use crate::text::{concat3, same_text};

verus! {

/// The payload kind a handler accepts.
#[derive(Debug, Clone, Copy, PartialEq, Eq, Structural)]
pub enum ToolKind {
    Function,
    Custom,
    Mcp,
}

/// What the model sent with a tool call.
#[derive(Debug, Clone, PartialEq, Eq)]
pub enum ToolPayload {
    Function { arguments: String },
    Custom { input: String },
    Mcp { server: String, tool: String, raw_arguments: String },
}

/// A handler's failure: a message the model can act on, which keeps the
/// turn going, or a fatal error, which ends it.
#[derive(Debug, Clone, PartialEq, Eq)]
pub enum FunctionCallError {
    RespondToModel(String),
    Fatal(String),
}

/// A handler's result: the body returned to the model, and where the
/// handler gives one, whether the call succeeded.
#[derive(Debug, Clone, PartialEq, Eq)]
pub enum ToolOutput {
    Function { body: String, success: Option<bool> },
}

/// The kind of a payload.
pub open spec fn payload_kind(p: ToolPayload) -> ToolKind {
    match p {
        ToolPayload::Function { .. } => ToolKind::Function,
        ToolPayload::Custom { .. } => ToolKind::Custom,
        ToolPayload::Mcp { .. } => ToolKind::Mcp,
    }
}

/// Whether a handler of `kind` accepts `payload`.
pub fn matches_kind(kind: ToolKind, payload: &ToolPayload) -> (r: bool)
    ensures
        r == (payload_kind(*payload) == kind),
{
    match payload {
        ToolPayload::Function { .. } => kind == ToolKind::Function,
        ToolPayload::Custom { .. } => kind == ToolKind::Custom,
        ToolPayload::Mcp { .. } => kind == ToolKind::Mcp,
    }
}

/// Handlers registered by tool name.
pub struct ToolRegistry {
    pub handlers: Vec<(String, ToolKind)>,
}

/// The kind registered first under `name`.
pub open spec fn registered_kind(h: Seq<(String, ToolKind)>, name: Seq<char>) -> Option<ToolKind>
    decreases h.len(),
{
    if h.len() == 0 {
        None
    } else if h[0].0@ == name {
        Some(h[0].1)
    } else {
        registered_kind(h.drop_first(), name)
    }
}

impl ToolRegistry {
    pub fn new() -> (r: ToolRegistry)
        ensures
            r.handlers@.len() == 0,
    {
        ToolRegistry { handlers: Vec::new() }
    }

    /// Registers a handler of `kind` under `name`; an earlier handler of
    /// the same name keeps precedence.
    pub fn register(&mut self, name: String, kind: ToolKind)
        ensures
            final(self).handlers@ == old(self).handlers@.push((name, kind)),
    {
        self.handlers.push((name, kind));
    }

    /// The kind registered under `name`.
    pub fn kind_of(&self, name: &str) -> (r: Option<ToolKind>)
        ensures
            r == registered_kind(self.handlers@, name@),
    {
        let mut i: usize = 0;
        let ghost h = self.handlers@;
        assert(h.subrange(0, h.len() as int) =~= h);
        while i < self.handlers.len()
            invariant
                i <= h.len(),
                h == self.handlers@,
                registered_kind(h, name@) == registered_kind(h.subrange(i as int, h.len() as int), name@),
            decreases h.len() - i,
        {
            assert(h.subrange(i as int, h.len() as int).drop_first() =~= h.subrange(i as int + 1, h.len() as int));
            if same_text(self.handlers[i].0.as_str(), name) {
                return Some(self.handlers[i].1);
            }
            i = i + 1;
        }
        None
    }

    /// Checks a call before dispatch: the tool must be registered and its
    /// handler must accept the payload's kind. Both failures are answered
    /// to the model, never coerced.
    pub fn check_call(&self, name: &str, payload: &ToolPayload) -> (r: Result<ToolKind, FunctionCallError>)
        ensures
            registered_kind(self.handlers@, name@) is None ==> r is Err && r->Err_0 is RespondToModel,
            registered_kind(self.handlers@, name@) is Some && registered_kind(self.handlers@, name@)->Some_0
                != payload_kind(*payload) ==> r is Err && r->Err_0 is RespondToModel,
            registered_kind(self.handlers@, name@) is Some && registered_kind(self.handlers@, name@)->Some_0
                == payload_kind(*payload) ==> r == Ok::<ToolKind, FunctionCallError>(payload_kind(*payload)),
    {
        match self.kind_of(name) {
            None => Err(FunctionCallError::RespondToModel(concat3("unsupported call: ", name, ""))),
            Some(kind) => {
                if matches_kind(kind, payload) {
                    Ok(kind)
                } else {
                    Err(
                        FunctionCallError::RespondToModel(
                            concat3("tool ", name, " invoked with incompatible payload"),
                        ),
                    )
                }
            },
        }
    }
}

} // verus!
