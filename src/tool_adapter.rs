//! Adapters from an alternate tool-call vocabulary (`Task`, `TaskOutput`,
//! `TaskStop`, `ToolSearch`, `Skill`) to the canonical collaboration and
//! search tools. An adapter checks the required fields, fills in defaults
//! and builds the canonical arguments; it performs no side effect itself.

use vstd::prelude::*;
use crate::text::{concat3, same_text, text_of, trim_text, trimmed, views};
use crate::tools::{FunctionCallError, ToolKind, ToolPayload};

verus! {

/// The handler of the alternate tool names.
pub struct ClaudeToolAdapterHandler;

/// A value of a canonical argument.
#[derive(Debug, Clone, PartialEq, Eq)]
pub enum ArgValue {
    Text(String),
    Int(i64),
    Count(u64),
    Texts(Vec<String>),
    /// A list of objects whose fields are all texts.
    Objects(Vec<Vec<(String, String)>>),
}

/// Canonical arguments: named values in insertion order.
#[derive(Debug, Clone, PartialEq, Eq)]
pub struct CanonicalArgs {
    pub fields: Vec<(String, ArgValue)>,
}

/// The model of an argument value.
pub enum ArgView {
    Text(Seq<char>),
    Int(int),
    Texts(Seq<Seq<char>>),
    Objects(Seq<Seq<(Seq<char>, Seq<char>)>>),
}

pub open spec fn object_view(o: Vec<(String, String)>) -> Seq<(Seq<char>, Seq<char>)> {
    o@.map_values(|f: (String, String)| (f.0@, f.1@))
}

pub open spec fn arg_view(v: ArgValue) -> ArgView {
    match v {
        ArgValue::Text(s) => ArgView::Text(s@),
        ArgValue::Int(n) => ArgView::Int(n as int),
        ArgValue::Count(n) => ArgView::Int(n as int),
        ArgValue::Texts(t) => ArgView::Texts(views(t@)),
        ArgValue::Objects(os) => ArgView::Objects(os@.map_values(|o: Vec<(String, String)>| object_view(o))),
    }
}

impl View for CanonicalArgs {
    type V = Seq<(Seq<char>, ArgView)>;

    open spec fn view(&self) -> Seq<(Seq<char>, ArgView)> {
        self.fields@.map_values(|f: (String, ArgValue)| (f.0@, arg_view(f.1)))
    }
}

/// Arguments of `Task`.
#[derive(Debug, Clone, PartialEq, Eq)]
pub struct TaskArgs {
    pub description: Option<String>,
    pub prompt: Option<String>,
    pub subagent_type: Option<String>,
    pub max_turns: Option<u32>,
    pub mode: Option<String>,
    pub model: Option<String>,
    pub name: Option<String>,
    pub resume: Option<String>,
    pub run_in_background: Option<bool>,
    pub team_name: Option<String>,
}

/// Arguments of `TaskOutput`; `block` is true where the call leaves it out.
#[derive(Debug, Clone, PartialEq, Eq)]
pub struct TaskOutputArgs {
    pub task_id: Option<String>,
    pub block: bool,
    pub timeout: Option<i64>,
}

/// Arguments of `TaskStop`.
#[derive(Debug, Clone, PartialEq, Eq)]
pub struct TaskStopArgs {
    pub task_id: Option<String>,
    pub shell_id: Option<String>,
}

/// Arguments of `ToolSearch`.
#[derive(Debug, Clone, PartialEq, Eq)]
pub struct ToolSearchArgs {
    pub query: Option<String>,
    pub max_results: Option<usize>,
}

/// Arguments of `Skill`.
#[derive(Debug, Clone, PartialEq, Eq)]
pub struct SkillArgs {
    pub skill: Option<String>,
    pub args: Option<String>,
}

/// What `block` is where a `TaskOutput` call leaves it out.
pub fn default_block() -> (r: bool)
    ensures
        r,
{
    true
}

pub open spec fn opt_text(v: Option<String>) -> Option<Seq<char>> {
    match v {
        Some(s) => Some(s@),
        None => None,
    }
}

/// A text trimmed, where anything is left of it.
pub open spec fn normalized(v: Option<Seq<char>>) -> Option<Seq<char>> {
    match v {
        Some(s) => if trimmed(s).len() > 0 {
            Some(trimmed(s))
        } else {
            None
        },
        None => None,
    }
}

pub fn normalize_text(value: Option<&str>) -> (r: Option<String>)
    ensures
        opt_text(r) == normalized(
            match value {
                Some(s) => Some(s@),
                None => None,
            },
        ),
{
    match value {
        Some(v) => {
            let t = trim_text(v);
            if t.unicode_len() == 0 {
                None
            } else {
                Some(t)
            }
        },
        None => None,
    }
}

fn normalize_opt(value: &Option<String>) -> (r: Option<String>)
    ensures
        opt_text(r) == normalized(opt_text(*value)),
{
    match value {
        Some(v) => normalize_text(Some(v.as_str())),
        None => None,
    }
}

/// The normalized text, or an error answered to the model.
pub fn required_non_empty_text(value: Option<&str>, error_message: &str) -> (r: Result<
    String,
    FunctionCallError,
>)
    ensures
        ({
            let n = normalized(
                match value {
                    Some(s) => Some(s@),
                    None => None,
                },
            );
            &&& n is Some ==> r is Ok && r->Ok_0@ == n->Some_0
            &&& n is None ==> r is Err && r->Err_0 is RespondToModel && r->Err_0->RespondToModel_0@
                == error_message@
        }),
{
    match normalize_text(value) {
        Some(t) => Ok(t),
        None => Err(FunctionCallError::RespondToModel(String::from_str(error_message))),
    }
}

fn required_opt(value: &Option<String>, error_message: &str) -> (r: Result<String, FunctionCallError>)
    ensures
        normalized(opt_text(*value)) is Some ==> r is Ok && r->Ok_0@ == normalized(
            opt_text(*value),
        )->Some_0,
        normalized(opt_text(*value)) is None ==> r is Err && r->Err_0 is RespondToModel
            && r->Err_0->RespondToModel_0@ == error_message@,
{
    match value {
        Some(v) => required_non_empty_text(Some(v.as_str()), error_message),
        None => required_non_empty_text(None, error_message),
    }
}

/// The agent types a spawned agent may have.
pub open spec fn supported_agent_type(v: Seq<char>) -> bool {
    v == "default"@ || v == "worker"@ || v == "explorer"@ || v == "orchestrator"@
}

pub fn is_supported_agent_type(value: &str) -> (r: bool)
    ensures
        r == supported_agent_type(value@),
{
    same_text(value, "default") || same_text(value, "worker") || same_text(value, "explorer")
        || same_text(value, "orchestrator")
}

/// A text item for a spawned agent.
pub open spec fn text_item(t: Seq<char>) -> Seq<(Seq<char>, Seq<char>)> {
    seq![("type"@, "text"@), ("text"@, t)]
}

fn text_item_exec(t: String) -> (r: Vec<(String, String)>)
    ensures
        object_view(r) == text_item(t@),
{
    let r = vec![(text_of("type"), text_of("text")), (text_of("text"), t)];
    assert(object_view(r) =~= text_item(t@));
    r
}

fn field(name: &str, value: ArgValue) -> (r: (String, ArgValue))
    ensures
        r.0@ == name@,
        r.1 == value,
{
    (text_of(name), value)
}

fn push_field(args: &mut CanonicalArgs, name: &str, value: ArgValue)
    ensures
        final(args)@ == old(args)@.push((name@, arg_view(value))),
{
    args.fields.push(field(name, value));
    assert(final(args)@ =~= old(args)@.push((name@, arg_view(value))));
}

fn empty_args() -> (r: CanonicalArgs)
    ensures
        r@ == Seq::<(Seq<char>, ArgView)>::empty(),
{
    let r = CanonicalArgs { fields: Vec::new() };
    assert(r@ =~= Seq::<(Seq<char>, ArgView)>::empty());
    r
}

/// The `spawn_agent` arguments of a `Task` call with prompt `prompt`: the
/// prompt as a text item, then the agent type where it is supported, the
/// label (the name, else the description) and the model, where given.
pub open spec fn task_spawn_fields(a: TaskArgs, prompt: Seq<char>) -> Seq<(Seq<char>, ArgView)> {
    let s0 = seq![("items"@, ArgView::Objects(seq![text_item(prompt)]))];
    let t = normalized(opt_text(a.subagent_type));
    let s1 = if t is Some && supported_agent_type(t->Some_0) {
        s0.push(("agent_type"@, ArgView::Text(t->Some_0)))
    } else {
        s0
    };
    let label = if normalized(opt_text(a.name)) is Some {
        normalized(opt_text(a.name))
    } else {
        normalized(opt_text(a.description))
    };
    let s2 = if label is Some {
        s1.push(("label"@, ArgView::Text(label->Some_0)))
    } else {
        s1
    };
    let m = normalized(opt_text(a.model));
    if m is Some {
        s2.push(("model"@, ArgView::Text(m->Some_0)))
    } else {
        s2
    }
}

/// Maps a `Task` call to `spawn_agent` arguments; the prompt is required.
pub fn map_task_to_spawn_payload(args: TaskArgs) -> (r: Result<CanonicalArgs, FunctionCallError>)
    ensures
        is_result(r, task_result(args)),
        normalized(opt_text(args.prompt)) is None ==> r is Err && r->Err_0 is RespondToModel
            && r->Err_0->RespondToModel_0@ == "prompt must not be empty / prompt 不能为空"@,
        normalized(opt_text(args.prompt)) is Some ==> r is Ok && r->Ok_0@ == task_spawn_fields(
            args,
            normalized(opt_text(args.prompt))->Some_0,
        ),
{
    let prompt = required_opt(&args.prompt, "prompt must not be empty / prompt 不能为空")?;
    let mut payload = empty_args();
    let items = vec![text_item_exec(prompt)];
    assert(items@.map_values(|o: Vec<(String, String)>| object_view(o)) =~= seq![text_item(prompt@)]);
    push_field(&mut payload, "items", ArgValue::Objects(items));
    if let Some(agent_type) = normalize_opt(&args.subagent_type) {
        if is_supported_agent_type(agent_type.as_str()) {
            push_field(&mut payload, "agent_type", ArgValue::Text(agent_type));
        }
    }
    let label = match normalize_opt(&args.name) {
        Some(l) => Some(l),
        None => normalize_opt(&args.description),
    };
    if let Some(label) = label {
        push_field(&mut payload, "label", ArgValue::Text(label));
    }
    if let Some(model) = normalize_opt(&args.model) {
        push_field(&mut payload, "model", ArgValue::Text(model));
    }
    Ok(payload)
}

/// The `wait` arguments of a `TaskOutput` call: the task id, and the
/// timeout, which is 0 for a non-blocking call.
pub fn map_task_output_to_wait_payload(args: TaskOutputArgs) -> (r: Result<
    CanonicalArgs,
    FunctionCallError,
>)
    ensures
        is_result(r, task_output_result(args)),
        normalized(opt_text(args.task_id)) is None ==> r is Err && r->Err_0 is RespondToModel
            && r->Err_0->RespondToModel_0@ == "task_id must not be empty / task_id 不能为空"@,
        normalized(opt_text(args.task_id)) is Some && args.block && args.timeout is Some
            && args.timeout->Some_0 < 0 ==> r is Err && r->Err_0 is RespondToModel
            && r->Err_0->RespondToModel_0@
            == "timeout must be greater than or equal to zero / timeout 必须大于等于 0"@,
        normalized(opt_text(args.task_id)) is Some && !(args.block && args.timeout is Some
            && args.timeout->Some_0 < 0) ==> r is Ok && r->Ok_0@ == ({
            let ids = seq![("ids"@, ArgView::Texts(seq![normalized(opt_text(args.task_id))->Some_0]))];
            if !args.block {
                ids.push(("timeout_ms"@, ArgView::Int(0)))
            } else if args.timeout is Some {
                ids.push(("timeout_ms"@, ArgView::Int(args.timeout->Some_0 as int)))
            } else {
                ids
            }
        }),
{
    let task_id = required_opt(&args.task_id, "task_id must not be empty / task_id 不能为空")?;
    let mut payload = empty_args();
    let ids = vec![task_id];
    assert(views(ids@) =~= seq![ids@[0]@]);
    push_field(&mut payload, "ids", ArgValue::Texts(ids));
    let timeout_ms = if args.block {
        args.timeout
    } else {
        Some(0i64)
    };
    if let Some(timeout_ms) = timeout_ms {
        if args.block && timeout_ms < 0 {
            return Err(
                FunctionCallError::RespondToModel(
                    text_of("timeout must be greater than or equal to zero / timeout 必须大于等于 0"),
                ),
            );
        }
        push_field(&mut payload, "timeout_ms", ArgValue::Int(timeout_ms));
    }
    Ok(payload)
}

/// The `close_agent` arguments of a `TaskStop` call: the task id, else the
/// shell id.
pub fn map_task_stop_to_close_payload(args: TaskStopArgs) -> (r: Result<
    CanonicalArgs,
    FunctionCallError,
>)
    ensures
        is_result(r, task_stop_result(args)),
        ({
            let id = if normalized(opt_text(args.task_id)) is Some {
                normalized(opt_text(args.task_id))
            } else {
                normalized(opt_text(args.shell_id))
            };
            &&& id is None ==> r is Err && r->Err_0 is RespondToModel && r->Err_0->RespondToModel_0@
                == "task_id or shell_id must not be empty / task_id 或 shell_id 不能为空"@
            &&& id is Some ==> r is Ok && r->Ok_0@ == seq![("id"@, ArgView::Text(id->Some_0))]
        }),
{
    let target = match normalize_opt(&args.task_id) {
        Some(t) => Some(t),
        None => normalize_opt(&args.shell_id),
    };
    match target {
        Some(id) => {
            let mut payload = empty_args();
            push_field(&mut payload, "id", ArgValue::Text(id));
            Ok(payload)
        },
        None => Err(
            FunctionCallError::RespondToModel(
                text_of("task_id or shell_id must not be empty / task_id 或 shell_id 不能为空"),
            ),
        ),
    }
}

/// The `search_tool_bm25` arguments of a `ToolSearch` call: the query, and
/// `max_results` as the limit, which must be above zero where given.
pub fn map_tool_search_payload(args: ToolSearchArgs) -> (r: Result<CanonicalArgs, FunctionCallError>)
    ensures
        is_result(r, tool_search_result(args)),
        normalized(opt_text(args.query)) is None ==> r is Err && r->Err_0 is RespondToModel
            && r->Err_0->RespondToModel_0@ == "query must not be empty / query 不能为空"@,
        normalized(opt_text(args.query)) is Some && args.max_results == Some(0usize) ==> r is Err
            && r->Err_0 is RespondToModel && r->Err_0->RespondToModel_0@
            == "max_results must be greater than zero / max_results 必须大于 0"@,
        normalized(opt_text(args.query)) is Some && args.max_results != Some(0usize) ==> r is Ok
            && r->Ok_0@ == ({
            let q = seq![("query"@, ArgView::Text(normalized(opt_text(args.query))->Some_0))];
            if args.max_results is Some {
                q.push(("limit"@, ArgView::Int(args.max_results->Some_0 as int)))
            } else {
                q
            }
        }),
{
    let query = required_opt(&args.query, "query must not be empty / query 不能为空")?;
    let mut payload = empty_args();
    push_field(&mut payload, "query", ArgValue::Text(query));
    if let Some(limit) = args.max_results {
        if limit == 0 {
            return Err(
                FunctionCallError::RespondToModel(
                    text_of("max_results must be greater than zero / max_results 必须大于 0"),
                ),
            );
        }
        push_field(&mut payload, "limit", ArgValue::Count(limit as u64));
    }
    Ok(payload)
}

/// A skill item for a spawned agent.
pub open spec fn skill_item(skill: Seq<char>) -> Seq<(Seq<char>, Seq<char>)> {
    seq![("type"@, "skill"@), ("name"@, skill), ("path"@, "skill://"@ + skill)]
}

/// The `spawn_agent` arguments of a `Skill` call: a skill item, a text item
/// with the skill's arguments where given, and a `skill:` label.
pub fn map_skill_to_spawn_payload(args: SkillArgs) -> (r: Result<CanonicalArgs, FunctionCallError>)
    ensures
        is_result(r, skill_result(args)),
        normalized(opt_text(args.skill)) is None ==> r is Err && r->Err_0 is RespondToModel
            && r->Err_0->RespondToModel_0@ == "skill must not be empty / skill 不能为空"@,
        normalized(opt_text(args.skill)) is Some ==> r is Ok && r->Ok_0@ == ({
            let skill = normalized(opt_text(args.skill))->Some_0;
            let t = normalized(opt_text(args.args));
            let items = if t is Some {
                seq![skill_item(skill), text_item(t->Some_0)]
            } else {
                seq![skill_item(skill)]
            };
            seq![("items"@, ArgView::Objects(items)), ("label"@, ArgView::Text("skill:"@ + skill))]
        }),
{
    let skill = required_opt(&args.skill, "skill must not be empty / skill 不能为空")?;
    let path = concat3("skill://", skill.as_str(), "");
    let label = concat3("skill:", skill.as_str(), "");
    proof {
        reveal_strlit("");
    }
    let item = vec![
        (text_of("type"), text_of("skill")),
        (text_of("name"), skill.clone()),
        (text_of("path"), path),
    ];
    assert(object_view(item) =~= skill_item(skill@));
    let mut items = vec![item];
    let ghost first = items@;
    if let Some(text) = normalize_opt(&args.args) {
        items.push(text_item_exec(text));
    }
    assert(items@.map_values(|o: Vec<(String, String)>| object_view(o)) =~= ({
        let t = normalized(opt_text(args.args));
        if t is Some {
            seq![skill_item(skill@), text_item(t->Some_0)]
        } else {
            seq![skill_item(skill@)]
        }
    }));
    let ghost iv = items@.map_values(|o: Vec<(String, String)>| object_view(o));
    let ghost lv = label@;
    let mut payload = empty_args();
    push_field(&mut payload, "items", ArgValue::Objects(items));
    push_field(&mut payload, "label", ArgValue::Text(label));
    assert(payload@ =~= seq![("items"@, ArgView::Objects(iv)), ("label"@, ArgView::Text(lv))]);
    Ok(payload)
}

/// Whether `r` is the mapping result `m`: the payload, or the error text
/// answered to the model.
pub open spec fn is_result(
    r: Result<CanonicalArgs, FunctionCallError>,
    m: Result<Seq<(Seq<char>, ArgView)>, Seq<char>>,
) -> bool {
    match m {
        Ok(v) => r is Ok && r->Ok_0@ == v,
        Err(e) => r is Err && r->Err_0 is RespondToModel && r->Err_0->RespondToModel_0@ == e,
    }
}

pub open spec fn task_result(a: TaskArgs) -> Result<Seq<(Seq<char>, ArgView)>, Seq<char>> {
    match normalized(opt_text(a.prompt)) {
        Some(p) => Ok(task_spawn_fields(a, p)),
        None => Err("prompt must not be empty / prompt 不能为空"@),
    }
}

pub open spec fn task_output_result(a: TaskOutputArgs) -> Result<Seq<(Seq<char>, ArgView)>, Seq<char>> {
    match normalized(opt_text(a.task_id)) {
        None => Err("task_id must not be empty / task_id 不能为空"@),
        Some(id) => if a.block && a.timeout is Some && a.timeout->Some_0 < 0 {
            Err("timeout must be greater than or equal to zero / timeout 必须大于等于 0"@)
        } else {
            let ids = seq![("ids"@, ArgView::Texts(seq![id]))];
            Ok(
                if !a.block {
                    ids.push(("timeout_ms"@, ArgView::Int(0)))
                } else if a.timeout is Some {
                    ids.push(("timeout_ms"@, ArgView::Int(a.timeout->Some_0 as int)))
                } else {
                    ids
                },
            )
        },
    }
}

pub open spec fn task_stop_result(a: TaskStopArgs) -> Result<Seq<(Seq<char>, ArgView)>, Seq<char>> {
    let id = if normalized(opt_text(a.task_id)) is Some {
        normalized(opt_text(a.task_id))
    } else {
        normalized(opt_text(a.shell_id))
    };
    match id {
        Some(i) => Ok(seq![("id"@, ArgView::Text(i))]),
        None => Err("task_id or shell_id must not be empty / task_id 或 shell_id 不能为空"@),
    }
}

pub open spec fn tool_search_result(a: ToolSearchArgs) -> Result<Seq<(Seq<char>, ArgView)>, Seq<char>> {
    match normalized(opt_text(a.query)) {
        None => Err("query must not be empty / query 不能为空"@),
        Some(q) => if a.max_results == Some(0usize) {
            Err("max_results must be greater than zero / max_results 必须大于 0"@)
        } else {
            let f = seq![("query"@, ArgView::Text(q))];
            Ok(
                if a.max_results is Some {
                    f.push(("limit"@, ArgView::Int(a.max_results->Some_0 as int)))
                } else {
                    f
                },
            )
        },
    }
}

pub open spec fn skill_result(a: SkillArgs) -> Result<Seq<(Seq<char>, ArgView)>, Seq<char>> {
    match normalized(opt_text(a.skill)) {
        None => Err("skill must not be empty / skill 不能为空"@),
        Some(skill) => {
            let t = normalized(opt_text(a.args));
            let items = if t is Some {
                seq![skill_item(skill), text_item(t->Some_0)]
            } else {
                seq![skill_item(skill)]
            };
            Ok(seq![("items"@, ArgView::Objects(items)), ("label"@, ArgView::Text("skill:"@ + skill))])
        },
    }
}

/// The canonical tool and the mapping result of an alternate tool call.
pub open spec fn alias_result(args: AliasArgs) -> (Seq<char>, Result<Seq<(Seq<char>, ArgView)>, Seq<char>>) {
    match args {
        AliasArgs::Task(a) => ("spawn_agent"@, task_result(a)),
        AliasArgs::TaskOutput(a) => ("wait"@, task_output_result(a)),
        AliasArgs::TaskStop(a) => ("close_agent"@, task_stop_result(a)),
        AliasArgs::ToolSearch(a) => ("search_tool_bm25"@, tool_search_result(a)),
        AliasArgs::Skill(a) => ("spawn_agent"@, skill_result(a)),
    }
}

/// An alternate tool name.
#[derive(Debug, Clone, Copy, PartialEq, Eq, Structural)]
pub enum AliasTool {
    Task,
    TaskOutput,
    TaskStop,
    ToolSearch,
    Skill,
}

/// The arguments of an alternate tool call, one shape per tool.
#[derive(Debug, Clone, PartialEq, Eq)]
pub enum AliasArgs {
    Task(TaskArgs),
    TaskOutput(TaskOutputArgs),
    TaskStop(TaskStopArgs),
    ToolSearch(ToolSearchArgs),
    Skill(SkillArgs),
}

impl AliasTool {
    /// The canonical tool an alternate tool forwards to.
    pub fn target_tool(self) -> (r: String)
        ensures
            (self == AliasTool::Task || self == AliasTool::Skill) ==> r@ == "spawn_agent"@,
            self == AliasTool::TaskOutput ==> r@ == "wait"@,
            self == AliasTool::TaskStop ==> r@ == "close_agent"@,
            self == AliasTool::ToolSearch ==> r@ == "search_tool_bm25"@,
    {
        match self {
            AliasTool::Task | AliasTool::Skill => text_of("spawn_agent"),
            AliasTool::TaskOutput => text_of("wait"),
            AliasTool::TaskStop => text_of("close_agent"),
            AliasTool::ToolSearch => text_of("search_tool_bm25"),
        }
    }
}

impl ClaudeToolAdapterHandler {
    /// The adapter takes function payloads.
    pub fn kind(&self) -> (r: ToolKind)
        ensures
            r == ToolKind::Function,
    {
        ToolKind::Function
    }

    pub fn matches_kind(&self, payload: &ToolPayload) -> (r: bool)
        ensures
            r == (payload is Function),
    {
        match payload {
            ToolPayload::Function { .. } => true,
            _ => false,
        }
    }

    /// The arguments text of a function payload; any other payload is
    /// answered to the model.
    pub fn function_arguments(&self, payload: &ToolPayload) -> (r: Result<String, FunctionCallError>)
        ensures
            payload is Function ==> r is Ok && r->Ok_0 == payload->Function_arguments,
            !(payload is Function) ==> r is Err && r->Err_0 is RespondToModel
                && r->Err_0->RespondToModel_0@
                == "tool alias adapter only supports function payloads / 工具别名适配仅支持函数负载"@,
    {
        match payload {
            ToolPayload::Function { arguments } => Ok(arguments.clone()),
            _ => Err(
                FunctionCallError::RespondToModel(
                    text_of(
                        "tool alias adapter only supports function payloads / 工具别名适配仅支持函数负载",
                    ),
                ),
            ),
        }
    }

    /// Which alternate tool a name is; any other name is answered to the model.
    pub fn route(&self, tool_name: &str) -> (r: Result<AliasTool, FunctionCallError>)
        ensures
            tool_name@ == "Task"@ ==> r == Ok::<AliasTool, FunctionCallError>(AliasTool::Task),
            tool_name@ == "TaskOutput"@ ==> r == Ok::<AliasTool, FunctionCallError>(AliasTool::TaskOutput),
            tool_name@ == "TaskStop"@ ==> r == Ok::<AliasTool, FunctionCallError>(AliasTool::TaskStop),
            tool_name@ == "ToolSearch"@ ==> r == Ok::<AliasTool, FunctionCallError>(AliasTool::ToolSearch),
            tool_name@ == "Skill"@ ==> r == Ok::<AliasTool, FunctionCallError>(AliasTool::Skill),
            !(tool_name@ == "Task"@ || tool_name@ == "TaskOutput"@ || tool_name@ == "TaskStop"@
                || tool_name@ == "ToolSearch"@ || tool_name@ == "Skill"@) ==> r is Err
                && r->Err_0 is RespondToModel && r->Err_0->RespondToModel_0@
                == "unsupported tool alias "@ + tool_name@ + " / 不支持的工具别名: "@
                + tool_name@,
    {
        proof {
            reveal_strlit("Task");
            reveal_strlit("TaskOutput");
            reveal_strlit("TaskStop");
            reveal_strlit("ToolSearch");
            reveal_strlit("Skill");
            assert("Task"@.len() == 4 && "TaskOutput"@.len() == 10 && "TaskStop"@.len() == 8);
            assert("ToolSearch"@.len() == 10 && "Skill"@.len() == 5);
            assert("ToolSearch"@[1] != "TaskOutput"@[1]);
        }
        if same_text(tool_name, "Task") {
            Ok(AliasTool::Task)
        } else if same_text(tool_name, "TaskOutput") {
            Ok(AliasTool::TaskOutput)
        } else if same_text(tool_name, "TaskStop") {
            Ok(AliasTool::TaskStop)
        } else if same_text(tool_name, "ToolSearch") {
            Ok(AliasTool::ToolSearch)
        } else if same_text(tool_name, "Skill") {
            Ok(AliasTool::Skill)
        } else {
            let mut m = concat3("unsupported tool alias ", tool_name, " / 不支持的工具别名: ");
            m.append(tool_name);
            Err(FunctionCallError::RespondToModel(m))
        }
    }

    /// The canonical tool and arguments of an alternate tool call.
    pub fn map_alias(&self, args: AliasArgs) -> (r: Result<(String, CanonicalArgs), FunctionCallError>)
        ensures
            match alias_result(args).1 {
                Ok(v) => r is Ok && r->Ok_0.0@ == alias_result(args).0 && r->Ok_0.1@ == v,
                Err(e) => r is Err && r->Err_0 is RespondToModel && r->Err_0->RespondToModel_0@ == e,
            },
    {
        match args {
            AliasArgs::Task(a) => {
                let p = map_task_to_spawn_payload(a)?;
                Ok((AliasTool::Task.target_tool(), p))
            },
            AliasArgs::TaskOutput(a) => {
                let p = map_task_output_to_wait_payload(a)?;
                Ok((AliasTool::TaskOutput.target_tool(), p))
            },
            AliasArgs::TaskStop(a) => {
                let p = map_task_stop_to_close_payload(a)?;
                Ok((AliasTool::TaskStop.target_tool(), p))
            },
            AliasArgs::ToolSearch(a) => {
                let p = map_tool_search_payload(a)?;
                Ok((AliasTool::ToolSearch.target_tool(), p))
            },
            AliasArgs::Skill(a) => {
                let p = map_skill_to_spawn_payload(a)?;
                Ok((AliasTool::Skill.target_tool(), p))
            },
        }
    }
}

} // verus!
