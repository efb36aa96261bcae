//! The SDD git branch workflow: create, switch, finalise by merge, or abandon
//! a branch under the `sdd/` prefix, always against the `develop-main` base.
//!
//! The workflow is a state machine. Each step names a silent git query, a
//! logged git command or a warning for the caller to carry out; the caller
//! hands back what came of it. All checks on names and on the working tree
//! happen before any command that changes the repository.

use vstd::prelude::*;
use crate::exec::ExecOutcome;
use crate::protocol::EventMsg;
use crate::session::TaskKind;
use crate::text::{
    concat3, contains_double_dot, contains_space, has_double_dot, has_prefix, has_space,
    is_blank, is_blank_text, same_text, starts_with_text,
    text_of, trim_text, trimmed, views,
};

verus! {

/// Time limit of one logged git command, in milliseconds.
pub const SDD_GIT_TIMEOUT_MS: u64 = 300000;

/// A request of the workflow.
#[derive(Debug, Clone, PartialEq, Eq)]
pub enum SddGitAction {
    CreateBranch { name: String, base: String },
    SwitchBranch { name: String },
    FinalizeMerge { name: String, base: String, commit_message: String },
    AbandonBranch { name: String, base: String },
}

/// A copy of an action.
pub fn copy_action(a: &SddGitAction) -> (r: SddGitAction)
    ensures
        r == *a,
{
    match a {
        SddGitAction::CreateBranch { name, base } => SddGitAction::CreateBranch {
            name: name.clone(),
            base: base.clone(),
        },
        SddGitAction::SwitchBranch { name } => SddGitAction::SwitchBranch { name: name.clone() },
        SddGitAction::FinalizeMerge { name, base, commit_message } => SddGitAction::FinalizeMerge {
            name: name.clone(),
            base: base.clone(),
            commit_message: commit_message.clone(),
        },
        SddGitAction::AbandonBranch { name, base } => SddGitAction::AbandonBranch {
            name: name.clone(),
            base: base.clone(),
        },
    }
}

/// A copy of a workflow result.
pub fn copy_result(r: &Result<(), String>) -> (c: Result<(), String>)
    ensures
        c == *r,
{
    match r {
        Ok(u) => Ok(*u),
        Err(m) => Err(m.clone()),
    }
}

/// The only base branch the workflow works against.
pub open spec fn base_branch() -> Seq<char> {
    "develop-main"@
}

/// The prefix every workflow branch carries.
pub open spec fn branch_prefix() -> Seq<char> {
    "sdd/"@
}

/// A branch name the workflow may touch.
pub open spec fn valid_branch_name(n: Seq<char>) -> bool {
    &&& has_prefix(n, branch_prefix())
    &&& n.len() > branch_prefix().len()
    &&& !has_space(n)
    &&& !has_double_dot(n)
}

/// Whether the action's base and branch names pass the checks.
pub open spec fn action_valid(a: SddGitAction) -> bool {
    match a {
        SddGitAction::CreateBranch { name, base } => base@ == base_branch()
            && valid_branch_name(name@),
        SddGitAction::SwitchBranch { name } => valid_branch_name(name@),
        SddGitAction::FinalizeMerge { name, base, .. } => base@ == base_branch()
            && valid_branch_name(name@),
        SddGitAction::AbandonBranch { name, base } => base@ == base_branch()
            && valid_branch_name(name@),
    }
}

/// The git commands (arguments after `git`) that an action may run.
pub open spec fn allowed_command(a: SddGitAction, args: Seq<Seq<char>>) -> bool {
    match a {
        SddGitAction::CreateBranch { name, base } => args == seq!["checkout"@, base@] || args
            == seq!["checkout"@, "-b"@, name@],
        SddGitAction::SwitchBranch { name } => args == seq!["checkout"@, name@],
        SddGitAction::FinalizeMerge { name, base, commit_message } => args == seq![
            "checkout"@,
            name@,
        ] || args == seq!["add"@, "-A"@] || args == seq!["commit"@, "-m"@, commit_message@]
            || args == seq!["checkout"@, base@] || args == seq!["merge"@, "--no-ff"@, name@],
        SddGitAction::AbandonBranch { name, base } => args == seq!["checkout"@, base@] || args
            == seq!["branch"@, "-D"@, name@],
    }
}

/// The message of the first failed check on a branch name.
pub open spec fn name_error(n: Seq<char>) -> Seq<char> {
    if !has_prefix(n, branch_prefix()) {
        "仅允许操作 `sdd/` 前缀分支，收到 `"@ + n + "`。"@
    } else if n.len() <= branch_prefix().len() {
        "分支名无效：`"@ + n + "`。"@
    } else if has_space(n) {
        "分支名包含空白字符：`"@ + n + "`。"@
    } else {
        "分支名包含非法片段：`"@ + n + "`。"@
    }
}

/// The message of the first failed check on an action: the base, then
/// the branch name.
pub open spec fn action_error(a: SddGitAction) -> Seq<char> {
    match a {
        SddGitAction::CreateBranch { name, base } | SddGitAction::FinalizeMerge { name, base, .. }
        | SddGitAction::AbandonBranch { name, base } => if base@ != base_branch() {
            "仅允许使用基线分支 `develop-main`，收到 `"@ + base@ + "`。"@
        } else {
            name_error(name@)
        },
        SddGitAction::SwitchBranch { name } => name_error(name@),
    }
}

/// Rejects every base branch but `develop-main`.
pub fn ensure_base_branch(base: &str) -> (r: Result<(), String>)
    ensures
        r is Ok <==> base@ == base_branch(),
        r is Err ==> r->Err_0@ == "仅允许使用基线分支 `develop-main`，收到 `"@ + base@ + "`。"@,
{
    if !same_text(base, "develop-main") {
        return Err(concat3("仅允许使用基线分支 `develop-main`，收到 `", base, "`。"));
    }
    Ok(())
}

/// Rejects a branch name without the `sdd/` prefix, one that is the prefix
/// alone, and one holding white space or `..`; the first failed check
/// gives the message.
pub fn ensure_sdd_branch(name: &str) -> (r: Result<(), String>)
    ensures
        r is Ok <==> valid_branch_name(name@),
        !has_prefix(name@, branch_prefix()) ==> r is Err && r->Err_0@
            == "仅允许操作 `sdd/` 前缀分支，收到 `"@ + name@ + "`。"@,
        has_prefix(name@, branch_prefix()) && name@.len() <= branch_prefix().len() ==> r is Err
            && r->Err_0@ == "分支名无效：`"@ + name@ + "`。"@,
        has_prefix(name@, branch_prefix()) && name@.len() > branch_prefix().len() && has_space(
            name@,
        ) ==> r is Err && r->Err_0@ == "分支名包含空白字符：`"@ + name@ + "`。"@,
        has_prefix(name@, branch_prefix()) && name@.len() > branch_prefix().len() && !has_space(
            name@,
        ) && has_double_dot(name@) ==> r is Err && r->Err_0@ == "分支名包含非法片段：`"@
            + name@ + "`。"@,
{
    if !starts_with_text(name, "sdd/") {
        return Err(concat3("仅允许操作 `sdd/` 前缀分支，收到 `", name, "`。"));
    }
    proof {
        reveal_strlit("sdd/");
    }
    if name.unicode_len() <= 4 {
        return Err(concat3("分支名无效：`", name, "`。"));
    }
    if contains_space(name) {
        return Err(concat3("分支名包含空白字符：`", name, "`。"));
    }
    if contains_double_dot(name) {
        return Err(concat3("分支名包含非法片段：`", name, "`。"));
    }
    Ok(())
}

/// Checks an action's base and branch names, in the order the action
/// needs them: the base first, then the branch.
pub fn validate_action(action: &SddGitAction) -> (r: Result<(), String>)
    ensures
        r is Ok <==> action_valid(*action),
        r is Err ==> r->Err_0@ == action_error(*action),
{
    match action {
        SddGitAction::CreateBranch { name, base } | SddGitAction::FinalizeMerge {
            name,
            base,
            ..
        } | SddGitAction::AbandonBranch { name, base } => {
            ensure_base_branch(base.as_str())?;
            ensure_sdd_branch(name.as_str())
        },
        SddGitAction::SwitchBranch { name } => ensure_sdd_branch(name.as_str()),
    }
}

/// Reads the answer of `git rev-parse --is-inside-work-tree`.
pub fn ensure_git_repository(output: &str) -> (r: Result<(), String>)
    ensures
        r is Ok <==> trimmed(output@) == "true"@,
        r is Err ==> r->Err_0@ == "当前目录不是 Git 仓库，无法执行 SDD Git 操作。"@,
{
    let t = trim_text(output);
    if !same_text(t.as_str(), "true") {
        return Err(text_of("当前目录不是 Git 仓库，无法执行 SDD Git 操作。"));
    }
    Ok(())
}

/// Reads the answer of `git rev-parse --abbrev-ref HEAD`.
pub fn current_branch(output: &str) -> (r: Result<String, String>)
    ensures
        trimmed(output@).len() > 0 ==> r is Ok && r->Ok_0@ == trimmed(output@),
        trimmed(output@).len() == 0 ==> r is Err && r->Err_0@ == "无法确定当前分支。"@,
{
    let name = trim_text(output);
    if name.unicode_len() == 0 {
        return Err(text_of("无法确定当前分支。"));
    }
    Ok(name)
}

/// Reads the answer of `git status --porcelain`: the tree is dirty where it
/// lists anything.
pub fn is_repo_dirty(output: &str) -> (r: bool)
    ensures
        r == !is_blank(output@),
{
    !is_blank_text(output)
}

/// Rejects a dirty working tree.
pub fn ensure_clean_repo(output: &str) -> (r: Result<(), String>)
    ensures
        r is Ok <==> is_blank(output@),
        r is Err ==> r->Err_0@ == "工作区存在未提交修改，请先清理后再操作。"@,
{
    if is_repo_dirty(output) {
        return Err(text_of("工作区存在未提交修改，请先清理后再操作。"));
    }
    Ok(())
}

/// What a silent git query hands back: its trimmed output where git
/// succeeded, else its trimmed error output, or a fixed message where that
/// is blank.
pub fn silent_git_result(success: bool, stdout: &str, stderr: &str) -> (r: Result<
    String,
    String,
>)
    ensures
        success ==> r is Ok && r->Ok_0@ == trimmed(stdout@),
        !success && trimmed(stderr@).len() > 0 ==> r is Err && r->Err_0@ == trimmed(stderr@),
        !success && trimmed(stderr@).len() == 0 ==> r is Err && r->Err_0@ == "git 命令执行失败。"@,
{
    if success {
        return Ok(trim_text(stdout));
    }
    let e = trim_text(stderr);
    if e.unicode_len() == 0 {
        return Err(text_of("git 命令执行失败。"));
    }
    Err(e)
}

/// The message for a git command that could not be started.
pub fn spawn_failure_message(detail: &str) -> (r: String)
    ensures
        r@ == "执行 git 失败: "@ + detail@,
{
    let mut r = text_of("执行 git 失败: ");
    r.append(detail);
    r
}

/// The message for a logged git command that could not be run.
pub fn sdd_failure_message(detail: &str) -> (r: String)
    ensures
        r@ == "SDD Git 执行失败: "@ + detail@,
{
    let mut r = text_of("SDD Git 执行失败: ");
    r.append(detail);
    r
}

/// What a logged git command's outcome means for the workflow: success on
/// exit code 0; else the command's output, or a fixed message where the
/// output is blank; a cancelled command stops the workflow.
pub fn sdd_command_result(outcome: &ExecOutcome) -> (r: Result<(), String>)
    ensures
        match *outcome {
            ExecOutcome::Completed(o) => {
                &&& (o.exit_code == 0 <==> r is Ok)
                &&& o.exit_code != 0 && !is_blank(o.aggregated_output@) ==> r->Err_0@
                    == o.aggregated_output@
                &&& o.exit_code != 0 && is_blank(o.aggregated_output@) ==> r->Err_0@
                    == "SDD Git 命令执行失败。"@
            },
            ExecOutcome::Cancelled => r is Err && r->Err_0@ == "SDD Git 命令已取消。"@,
            ExecOutcome::Failed(m) => r is Err && r->Err_0@ == m@,
        },
{
    match outcome {
        ExecOutcome::Completed(o) => {
            if o.exit_code == 0 {
                Ok(())
            } else if is_blank_text(o.aggregated_output.as_str()) {
                Err(text_of("SDD Git 命令执行失败。"))
            } else {
                Err(o.aggregated_output.clone())
            }
        },
        ExecOutcome::Cancelled => Err(text_of("SDD Git 命令已取消。")),
        ExecOutcome::Failed(m) => Err(m.clone()),
    }
}

/// A silent query the workflow asks of git.
#[derive(Debug, Clone, Copy, PartialEq, Eq, Structural)]
pub enum GitQuery {
    InsideWorkTree,
    CurrentBranch,
    Status,
}

impl GitQuery {
    /// The query's arguments after `git`.
    pub fn args(self) -> (r: Vec<String>)
        ensures
            self == GitQuery::InsideWorkTree ==> views(r@) == seq![
                "rev-parse"@,
                "--is-inside-work-tree"@,
            ],
            self == GitQuery::CurrentBranch ==> views(r@) == seq![
                "rev-parse"@,
                "--abbrev-ref"@,
                "HEAD"@,
            ],
            self == GitQuery::Status ==> views(r@) == seq!["status"@, "--porcelain"@],
    {
        let r = match self {
            GitQuery::InsideWorkTree => vec![text_of("rev-parse"), text_of("--is-inside-work-tree")],
            GitQuery::CurrentBranch => vec![
                text_of("rev-parse"),
                text_of("--abbrev-ref"),
                text_of("HEAD"),
            ],
            GitQuery::Status => vec![text_of("status"), text_of("--porcelain")],
        };
        assert(views(r@) =~= r@.map_values(|s: String| s@));
        r
    }
}

/// The full command line of a git command: `git` and then its arguments.
pub fn git_command(args: &Vec<String>) -> (r: Vec<String>)
    ensures
        views(r@) == seq!["git"@] + views(args@),
{
    let mut r: Vec<String> = Vec::new();
    r.push(text_of("git"));
    let mut i: usize = 0;
    while i < args.len()
        invariant
            i <= args.len(),
            views(r@) =~= seq!["git"@] + views(args@.subrange(0, i as int)),
        decreases args.len() - i,
    {
        let ghost before = r@;
        r.push(args[i].clone());
        assert(args@.subrange(0, i as int + 1) =~= args@.subrange(0, i as int).push(args@[i as int]));
        assert(views(r@) =~= views(before).push(args@[i as int]@));
        assert(views(args@.subrange(0, i as int + 1)) =~= views(args@.subrange(0, i as int)).push(args@[i as int]@));
        i = i + 1;
    }
    assert(args@.subrange(0, args.len() as int) =~= args@);
    r
}

/// What the workflow asks of its caller next.
#[derive(Debug, PartialEq, Eq)]
pub enum SddStep {
    /// Run a silent git query and hand back its result.
    Query(GitQuery),
    /// Run a logged git command (arguments after `git`) and hand back
    /// `Ok` with any text, or its error.
    Run(Vec<String>),
    /// Emit a warning and hand back `Ok`.
    Warn(String),
    /// The workflow has ended.
    Done(Result<(), String>),
}

/// Where the workflow stands: which answer it awaits.
#[derive(Debug, PartialEq, Eq)]
pub enum SddStage {
    Repo,
    CleanCheck,
    Current,
    SwitchedToBase,
    LastCommand,
    MergeCurrent,
    MergeStatus { on_name: bool },
    OnName,
    MergeDirty,
    Added,
    Committed,
    BeforeMerge,
    BaseForMerge,
    Finished { result: Result<(), String> },
}

/// One run of the workflow for one action.
pub struct SddGitRun {
    pub action: SddGitAction,
    pub stage: SddStage,
}

/// The message that refuses a merge from a dirty tree on another branch.
pub open spec fn dirty_elsewhere_message() -> Seq<char> {
    "工作区有未提交修改，且当前不在 SDD 分支，无法继续合并。"@
}

/// The model of a step: texts as character sequences.
pub enum SddStepView {
    Query(GitQuery),
    Run(Seq<Seq<char>>),
    Warn(Seq<char>),
    Done(Result<(), Seq<char>>),
}

pub open spec fn step_view(s: SddStep) -> SddStepView {
    match s {
        SddStep::Query(q) => SddStepView::Query(q),
        SddStep::Run(a) => SddStepView::Run(views(a@)),
        SddStep::Warn(w) => SddStepView::Warn(w@),
        SddStep::Done(Ok(())) => SddStepView::Done(Ok(())),
        SddStep::Done(Err(m)) => SddStepView::Done(Err(m@)),
    }
}

/// The message of a stage that does not belong to the action.
pub open spec fn stage_error() -> Seq<char> {
    "SDD Git 状态错误。"@
}

pub open spec fn fail_with(m: Seq<char>) -> (Option<SddStage>, SddStepView) {
    (None, SddStepView::Done(Err(m)))
}

pub open spec fn ask_at(st: SddStage, q: GitQuery) -> (Option<SddStage>, SddStepView) {
    (Some(st), SddStepView::Query(q))
}

pub open spec fn run_at(st: SddStage, args: Seq<Seq<char>>) -> (Option<SddStage>, SddStepView) {
    (Some(st), SddStepView::Run(args))
}

/// The workflow's next stage (`None` once it has ended) and next step,
/// where it stands at stage `st` and the last step answered `out`.
pub open spec fn sdd_next(a: SddGitAction, st: SddStage, out: Seq<char>) -> (
    Option<SddStage>,
    SddStepView,
) {
    let t = trimmed(out);
    match st {
        SddStage::Repo => if t != "true"@ {
            fail_with("当前目录不是 Git 仓库，无法执行 SDD Git 操作。"@)
        } else if !action_valid(a) {
            fail_with(action_error(a))
        } else {
            match a {
                SddGitAction::SwitchBranch { .. } => ask_at(SddStage::Current, GitQuery::CurrentBranch),
                SddGitAction::FinalizeMerge { .. } => ask_at(
                    SddStage::MergeCurrent,
                    GitQuery::CurrentBranch,
                ),
                _ => ask_at(SddStage::CleanCheck, GitQuery::Status),
            }
        },
        SddStage::CleanCheck => if is_blank(out) {
            ask_at(SddStage::Current, GitQuery::CurrentBranch)
        } else {
            fail_with("工作区存在未提交修改，请先清理后再操作。"@)
        },
        SddStage::Current => if t.len() == 0 {
            fail_with("无法确定当前分支。"@)
        } else {
            match a {
                SddGitAction::CreateBranch { name, base } => if t != base@ {
                    run_at(SddStage::SwitchedToBase, seq!["checkout"@, base@])
                } else {
                    run_at(SddStage::LastCommand, seq!["checkout"@, "-b"@, name@])
                },
                SddGitAction::AbandonBranch { name, base } => if t != base@ {
                    run_at(SddStage::SwitchedToBase, seq!["checkout"@, base@])
                } else {
                    run_at(SddStage::LastCommand, seq!["branch"@, "-D"@, name@])
                },
                SddGitAction::SwitchBranch { name } => if t != name@ {
                    run_at(SddStage::LastCommand, seq!["checkout"@, name@])
                } else {
                    (None, SddStepView::Done(Ok(())))
                },
                SddGitAction::FinalizeMerge { .. } => fail_with(stage_error()),
            }
        },
        SddStage::SwitchedToBase => match a {
            SddGitAction::CreateBranch { name, .. } => run_at(
                SddStage::LastCommand,
                seq!["checkout"@, "-b"@, name@],
            ),
            SddGitAction::AbandonBranch { name, .. } => run_at(
                SddStage::LastCommand,
                seq!["branch"@, "-D"@, name@],
            ),
            _ => fail_with(stage_error()),
        },
        SddStage::LastCommand => (None, SddStepView::Done(Ok(()))),
        SddStage::MergeCurrent => if t.len() == 0 {
            fail_with("无法确定当前分支。"@)
        } else {
            match a {
                SddGitAction::FinalizeMerge { name, .. } => ask_at(
                    SddStage::MergeStatus { on_name: t == name@ },
                    GitQuery::Status,
                ),
                _ => fail_with(stage_error()),
            }
        },
        SddStage::MergeStatus { on_name } => if !is_blank(out) && !on_name {
            fail_with(dirty_elsewhere_message())
        } else {
            match a {
                SddGitAction::FinalizeMerge { name, .. } => if !on_name {
                    run_at(SddStage::OnName, seq!["checkout"@, name@])
                } else {
                    ask_at(SddStage::MergeDirty, GitQuery::Status)
                },
                _ => fail_with(stage_error()),
            }
        },
        SddStage::OnName => ask_at(SddStage::MergeDirty, GitQuery::Status),
        SddStage::MergeDirty => if !is_blank(out) {
            match a {
                SddGitAction::FinalizeMerge { .. } => run_at(SddStage::Added, seq!["add"@, "-A"@]),
                _ => fail_with(stage_error()),
            }
        } else {
            (Some(SddStage::Committed), SddStepView::Warn("工作区无变更，跳过提交。"@))
        },
        SddStage::Added => match a {
            SddGitAction::FinalizeMerge { commit_message, .. } => run_at(
                SddStage::Committed,
                seq!["commit"@, "-m"@, commit_message@],
            ),
            _ => fail_with(stage_error()),
        },
        SddStage::Committed => ask_at(SddStage::BeforeMerge, GitQuery::CurrentBranch),
        SddStage::BeforeMerge => if t.len() == 0 {
            fail_with("无法确定当前分支。"@)
        } else {
            match a {
                SddGitAction::FinalizeMerge { name, base, .. } => if t != base@ {
                    run_at(SddStage::BaseForMerge, seq!["checkout"@, base@])
                } else {
                    run_at(SddStage::LastCommand, seq!["merge"@, "--no-ff"@, name@])
                },
                _ => fail_with(stage_error()),
            }
        },
        SddStage::BaseForMerge => match a {
            SddGitAction::FinalizeMerge { name, .. } => run_at(
                SddStage::LastCommand,
                seq!["merge"@, "--no-ff"@, name@],
            ),
            _ => fail_with(stage_error()),
        },
        SddStage::Finished { .. } => fail_with(stage_error()),
    }
}

impl SddGitRun {
    /// Every stage past the repository check belongs to a valid action.
    pub open spec fn wf(&self) -> bool {
        match self.stage {
            SddStage::Repo => true,
            SddStage::Finished { .. } => true,
            _ => action_valid(self.action),
        }
    }

    /// Starts a run; its first step asks whether the directory is a
    /// git working tree.
    pub fn start(action: SddGitAction) -> (r: (SddGitRun, SddStep))
        ensures
            r.0.action == action,
            r.0.stage == SddStage::Repo,
            r.0.wf(),
            r.1 == SddStep::Query(GitQuery::InsideWorkTree),
    {
        (SddGitRun { action, stage: SddStage::Repo }, SddStep::Query(GitQuery::InsideWorkTree))
    }

    fn finish(&mut self, result: Result<(), String>) -> (r: SddStep)
        ensures
            final(self).action == old(self).action,
            final(self).stage == (SddStage::Finished { result }),
            r == SddStep::Done(result),
    {
        self.stage = SddStage::Finished { result: copy_result(&result) };
        SddStep::Done(result)
    }

    fn run2(&mut self, stage: SddStage, a: &str, b: &str) -> (r: SddStep)
        ensures
            final(self).action == old(self).action,
            final(self).stage == stage,
            r is Run && views(r->Run_0@) == seq![a@, b@],
    {
        self.stage = stage;
        let v = vec![text_of(a), text_of(b)];
        assert(views(v@) =~= seq![a@, b@]);
        SddStep::Run(v)
    }

    fn run3(&mut self, stage: SddStage, a: &str, b: &str, c: &str) -> (r: SddStep)
        ensures
            final(self).action == old(self).action,
            final(self).stage == stage,
            r is Run && views(r->Run_0@) == seq![a@, b@, c@],
    {
        self.stage = stage;
        let v = vec![text_of(a), text_of(b), text_of(c)];
        assert(views(v@) =~= seq![a@, b@, c@]);
        SddStep::Run(v)
    }

    fn ask(&mut self, stage: SddStage, q: GitQuery) -> (r: SddStep)
        ensures
            final(self).action == old(self).action,
            final(self).stage == stage,
            r == SddStep::Query(q),
    {
        self.stage = stage;
        SddStep::Query(q)
    }

    /// Takes the result of the last step and decides the next one.
    ///
    /// A finished run stays finished. An error of the last step ends the run
    /// with that error. Only a valid action runs a command, and only one of
    /// those that `allowed_command` lists for it. A non-repository, an
    /// invalid base or branch name, and a dirty tree on a branch other than
    /// the one to merge end the run with an error before any command.
    pub fn advance(&mut self, outcome: Result<String, String>) -> (r: SddStep)
        requires
            old(self).wf(),
        ensures
            final(self).wf(),
            final(self).action == old(self).action,
            old(self).stage is Finished ==> *final(self) == *old(self) && r == SddStep::Done(
                old(self).stage->Finished_result,
            ),
            r is Done <==> final(self).stage is Finished,
            r is Done ==> r->Done_0 == final(self).stage->Finished_result,
            r is Run ==> action_valid(old(self).action) && allowed_command(
                old(self).action,
                views(r->Run_0@),
            ),
            !(old(self).stage is Finished) && outcome is Err ==> r == SddStep::Done(
                Err(outcome->Err_0),
            ),
            !(old(self).stage is Finished) && outcome is Ok ==> step_view(r) == sdd_next(
                old(self).action,
                old(self).stage,
                outcome->Ok_0@,
            ).1,
            !(old(self).stage is Finished) && outcome is Ok && sdd_next(
                old(self).action,
                old(self).stage,
                outcome->Ok_0@,
            ).0 is Some ==> final(self).stage == sdd_next(
                old(self).action,
                old(self).stage,
                outcome->Ok_0@,
            ).0->Some_0,
            old(self).stage == SddStage::Repo && outcome is Ok && trimmed(outcome->Ok_0@)
                != "true"@ ==> r is Done && r->Done_0 is Err,
            old(self).stage == SddStage::Repo && outcome is Ok && !action_valid(old(self).action)
                ==> r is Done && r->Done_0 is Err,
            old(self).stage == (SddStage::MergeStatus { on_name: false }) && outcome is Ok
                && !is_blank(outcome->Ok_0@) ==> r is Done && r->Done_0 is Err
                && r->Done_0->Err_0@ == dirty_elsewhere_message(),
    {
        if let SddStage::Finished { result } = &self.stage {
            return SddStep::Done(copy_result(result));
        }
        let out = match outcome {
            Err(m) => {
                return self.finish(Err(m));
            },
            Ok(out) => out,
        };
        let action = copy_action(&self.action);
        match self.stage {
            SddStage::Repo => {
                if let Err(m) = ensure_git_repository(out.as_str()) {
                    return self.finish(Err(m));
                }
                if let Err(m) = validate_action(&action) {
                    return self.finish(Err(m));
                }
                match action {
                    SddGitAction::SwitchBranch { .. } => self.ask(
                        SddStage::Current,
                        GitQuery::CurrentBranch,
                    ),
                    SddGitAction::FinalizeMerge { .. } => self.ask(
                        SddStage::MergeCurrent,
                        GitQuery::CurrentBranch,
                    ),
                    _ => self.ask(SddStage::CleanCheck, GitQuery::Status),
                }
            },
            SddStage::CleanCheck => {
                if let Err(m) = ensure_clean_repo(out.as_str()) {
                    return self.finish(Err(m));
                }
                self.ask(SddStage::Current, GitQuery::CurrentBranch)
            },
            SddStage::Current => {
                let current = match current_branch(out.as_str()) {
                    Ok(c) => c,
                    Err(m) => {
                        return self.finish(Err(m));
                    },
                };
                match action {
                    SddGitAction::CreateBranch { name, base } => {
                        if !same_text(current.as_str(), base.as_str()) {
                            self.run2(SddStage::SwitchedToBase, "checkout", base.as_str())
                        } else {
                            self.run3(SddStage::LastCommand, "checkout", "-b", name.as_str())
                        }
                    },
                    SddGitAction::AbandonBranch { name, base } => {
                        if !same_text(current.as_str(), base.as_str()) {
                            self.run2(SddStage::SwitchedToBase, "checkout", base.as_str())
                        } else {
                            self.run3(SddStage::LastCommand, "branch", "-D", name.as_str())
                        }
                    },
                    SddGitAction::SwitchBranch { name } => {
                        if !same_text(current.as_str(), name.as_str()) {
                            self.run2(SddStage::LastCommand, "checkout", name.as_str())
                        } else {
                            self.finish(Ok(()))
                        }
                    },
                    SddGitAction::FinalizeMerge { .. } => self.finish(Err(text_of("SDD Git 状态错误。"))),
                }
            },
            SddStage::SwitchedToBase => match action {
                SddGitAction::CreateBranch { name, .. } => self.run3(
                    SddStage::LastCommand,
                    "checkout",
                    "-b",
                    name.as_str(),
                ),
                SddGitAction::AbandonBranch { name, .. } => self.run3(
                    SddStage::LastCommand,
                    "branch",
                    "-D",
                    name.as_str(),
                ),
                _ => self.finish(Err(text_of("SDD Git 状态错误。"))),
            },
            SddStage::LastCommand => self.finish(Ok(())),
            SddStage::MergeCurrent => {
                let current = match current_branch(out.as_str()) {
                    Ok(c) => c,
                    Err(m) => {
                        return self.finish(Err(m));
                    },
                };
                match action {
                    SddGitAction::FinalizeMerge { name, .. } => {
                        let on_name = same_text(current.as_str(), name.as_str());
                        self.ask(SddStage::MergeStatus { on_name }, GitQuery::Status)
                    },
                    _ => self.finish(Err(text_of("SDD Git 状态错误。"))),
                }
            },
            SddStage::MergeStatus { on_name } => {
                let dirty = is_repo_dirty(out.as_str());
                if dirty && !on_name {
                    return self.finish(
                        Err(text_of("工作区有未提交修改，且当前不在 SDD 分支，无法继续合并。")),
                    );
                }
                match action {
                    SddGitAction::FinalizeMerge { name, .. } => {
                        if !on_name {
                            self.run2(SddStage::OnName, "checkout", name.as_str())
                        } else {
                            self.ask(SddStage::MergeDirty, GitQuery::Status)
                        }
                    },
                    _ => self.finish(Err(text_of("SDD Git 状态错误。"))),
                }
            },
            SddStage::OnName => self.ask(SddStage::MergeDirty, GitQuery::Status),
            SddStage::MergeDirty => {
                if is_repo_dirty(out.as_str()) {
                    match action {
                        SddGitAction::FinalizeMerge { .. } => self.run2(SddStage::Added, "add", "-A"),
                        _ => self.finish(Err(text_of("SDD Git 状态错误。"))),
                    }
                } else {
                    self.stage = SddStage::Committed;
                    SddStep::Warn(text_of("工作区无变更，跳过提交。"))
                }
            },
            SddStage::Added => match action {
                SddGitAction::FinalizeMerge { commit_message, .. } => self.run3(
                    SddStage::Committed,
                    "commit",
                    "-m",
                    commit_message.as_str(),
                ),
                _ => self.finish(Err(text_of("SDD Git 状态错误。"))),
            },
            SddStage::Committed => self.ask(SddStage::BeforeMerge, GitQuery::CurrentBranch),
            SddStage::BeforeMerge => {
                let current = match current_branch(out.as_str()) {
                    Ok(c) => c,
                    Err(m) => {
                        return self.finish(Err(m));
                    },
                };
                match action {
                    SddGitAction::FinalizeMerge { name, base, .. } => {
                        if !same_text(current.as_str(), base.as_str()) {
                            self.run2(SddStage::BaseForMerge, "checkout", base.as_str())
                        } else {
                            self.run3(SddStage::LastCommand, "merge", "--no-ff", name.as_str())
                        }
                    },
                    _ => self.finish(Err(text_of("SDD Git 状态错误。"))),
                }
            },
            SddStage::BaseForMerge => match action {
                SddGitAction::FinalizeMerge { name, .. } => self.run3(
                    SddStage::LastCommand,
                    "merge",
                    "--no-ff",
                    name.as_str(),
                ),
                _ => self.finish(Err(text_of("SDD Git 状态错误。"))),
            },
            SddStage::Finished { .. } => self.finish(Err(text_of("SDD Git 状态错误。"))),
        }
    }
}

/// The workflow's rejections: an action naming a branch without the
/// `sdd/` prefix, or a base other than `develop-main`, is not valid, so
/// `advance` ends it with an error before any command runs.
pub proof fn lemma_rejected_actions(action: SddGitAction)
    ensures
        match action {
            SddGitAction::CreateBranch { name, base } | SddGitAction::FinalizeMerge {
                name,
                base,
                ..
            } | SddGitAction::AbandonBranch { name, base } => (!has_prefix(name@, branch_prefix())
                || base@ != base_branch()) ==> !action_valid(action),
            SddGitAction::SwitchBranch { name } => !has_prefix(name@, branch_prefix())
                ==> !action_valid(action),
        },
{
}

/// Finalising a merge from a dirty tree on another branch is refused
/// before any command: after the repository check the run asks for the
/// current branch, then for the status, and then ends with the refusal.
pub proof fn lemma_finalize_dirty_elsewhere_refused(
    a: SddGitAction,
    inside: Seq<char>,
    current: Seq<char>,
    status: Seq<char>,
)
    requires
        a is FinalizeMerge,
        action_valid(a),
        trimmed(inside) == "true"@,
        trimmed(current).len() > 0,
        trimmed(current) != a->FinalizeMerge_name@,
        !is_blank(status),
    ensures
        sdd_next(a, SddStage::Repo, inside) == ask_at(SddStage::MergeCurrent, GitQuery::CurrentBranch),
        sdd_next(a, SddStage::MergeCurrent, current) == ask_at(
            SddStage::MergeStatus { on_name: false },
            GitQuery::Status,
        ),
        sdd_next(a, SddStage::MergeStatus { on_name: false }, status) == fail_with(
            dirty_elsewhere_message(),
        ),
{
}

/// Creating or abandoning a branch from a dirty tree is refused before any
/// command: after the repository check the run asks for the status and
/// ends with the clean-tree message.
pub proof fn lemma_dirty_tree_refused(a: SddGitAction, inside: Seq<char>, status: Seq<char>)
    requires
        a is CreateBranch || a is AbandonBranch,
        action_valid(a),
        trimmed(inside) == "true"@,
        !is_blank(status),
    ensures
        sdd_next(a, SddStage::Repo, inside) == ask_at(SddStage::CleanCheck, GitQuery::Status),
        sdd_next(a, SddStage::CleanCheck, status) == fail_with(
            "工作区存在未提交修改，请先清理后再操作。"@,
        ),
{
}

/// Creating a branch from a clean tree: the run switches to the base where
/// it is elsewhere, creates and checks out the branch, and succeeds once
/// that command succeeded.
pub proof fn lemma_create_branch_succeeds(
    a: SddGitAction,
    inside: Seq<char>,
    status: Seq<char>,
    current: Seq<char>,
    any: Seq<char>,
)
    requires
        a is CreateBranch,
        action_valid(a),
        trimmed(inside) == "true"@,
        is_blank(status),
        trimmed(current).len() > 0,
    ensures
        sdd_next(a, SddStage::Repo, inside) == ask_at(SddStage::CleanCheck, GitQuery::Status),
        sdd_next(a, SddStage::CleanCheck, status) == ask_at(SddStage::Current, GitQuery::CurrentBranch),
        trimmed(current) == a->CreateBranch_base@ ==> sdd_next(a, SddStage::Current, current)
            == run_at(SddStage::LastCommand, seq!["checkout"@, "-b"@, a->CreateBranch_name@]),
        trimmed(current) != a->CreateBranch_base@ ==> sdd_next(a, SddStage::Current, current)
            == run_at(SddStage::SwitchedToBase, seq!["checkout"@, a->CreateBranch_base@]),
        sdd_next(a, SddStage::SwitchedToBase, any) == run_at(
            SddStage::LastCommand,
            seq!["checkout"@, "-b"@, a->CreateBranch_name@],
        ),
        sdd_next(a, SddStage::LastCommand, any) == (None::<SddStage>, SddStepView::Done(Ok(()))),
{
}

/// Abandoning a branch from a clean tree: the run switches to the base
/// where it is elsewhere, then force-deletes the branch, and succeeds once
/// that command succeeded.
pub proof fn lemma_abandon_branch_order(a: SddGitAction, current: Seq<char>, any: Seq<char>)
    requires
        a is AbandonBranch,
        trimmed(current).len() > 0,
    ensures
        trimmed(current) != a->AbandonBranch_base@ ==> sdd_next(a, SddStage::Current, current)
            == run_at(SddStage::SwitchedToBase, seq!["checkout"@, a->AbandonBranch_base@]),
        trimmed(current) == a->AbandonBranch_base@ ==> sdd_next(a, SddStage::Current, current)
            == run_at(SddStage::LastCommand, seq!["branch"@, "-D"@, a->AbandonBranch_name@]),
        sdd_next(a, SddStage::SwitchedToBase, any) == run_at(
            SddStage::LastCommand,
            seq!["branch"@, "-D"@, a->AbandonBranch_name@],
        ),
        sdd_next(a, SddStage::LastCommand, any) == (None::<SddStage>, SddStepView::Done(Ok(()))),
{
}

/// The workflow as a task of a session.
pub struct SddGitTask {
    pub action: SddGitAction,
}

impl SddGitTask {
    pub fn new(action: SddGitAction) -> (r: SddGitTask)
        ensures
            r.action == action,
    {
        SddGitTask { action }
    }

    /// The workflow runs as a regular task.
    pub fn kind(&self) -> (r: TaskKind)
        ensures
            r == TaskKind::Regular,
    {
        TaskKind::Regular
    }

    /// The event that closes a finished run: exactly one error event for
    /// a failure, nothing for a success.
    pub fn closing_event(result: &Result<(), String>) -> (r: Option<EventMsg>)
        ensures
            result is Ok ==> r is None,
            result is Err ==> r == Some(EventMsg::Error(result->Err_0)),
    {
        match result {
            Ok(()) => None,
            Err(m) => Some(EventMsg::Error(m.clone())),
        }
    }

    /// Starts the task: the start event carrying the context window, and
    /// the run with its first step.
    pub fn start(self, model_context_window: Option<i64>) -> (r: (EventMsg, SddGitRun, SddStep))
        ensures
            r.0 == (EventMsg::TaskStarted { model_context_window }),
            r.1.action == self.action,
            r.1.stage == SddStage::Repo,
            r.1.wf(),
            r.2 == SddStep::Query(GitQuery::InsideWorkTree),
    {
        let (run, step) = SddGitRun::start(self.action);
        (EventMsg::TaskStarted { model_context_window }, run, step)
    }
}

} // verus!
