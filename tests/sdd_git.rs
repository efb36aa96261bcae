use agent_core::exec::{ExecOutcome, ExecOutput};
use agent_core::protocol::EventMsg;
use agent_core::sdd_git::{
    ensure_base_branch, ensure_sdd_branch, git_command, sdd_command_result, silent_git_result,
    GitQuery, SddGitAction, SddGitRun, SddGitTask, SddStep,
};

/// A tiny model of a repository: its current branch and whether it is dirty.
struct FakeRepo {
    branch: String,
    dirty: bool,
    commands: Vec<Vec<String>>,
}

impl FakeRepo {
    fn answer(&mut self, step: &SddStep) -> Result<String, String> {
        match step {
            SddStep::Query(GitQuery::InsideWorkTree) => Ok("true\n".to_string()),
            SddStep::Query(GitQuery::CurrentBranch) => Ok(format!("{}\n", self.branch)),
            SddStep::Query(GitQuery::Status) => Ok(if self.dirty { " M a.txt\n".to_string() } else { String::new() }),
            SddStep::Run(args) => {
                self.commands.push(args.clone());
                match args.iter().map(String::as_str).collect::<Vec<_>>().as_slice() {
                    ["checkout", "-b", name] => self.branch = name.to_string(),
                    ["checkout", name] => self.branch = name.to_string(),
                    ["commit", ..] => self.dirty = false,
                    _ => {}
                }
                Ok(String::new())
            }
            SddStep::Warn(_) => Ok(String::new()),
            SddStep::Done(_) => unreachable!(),
        }
    }
}

fn drive(repo: &mut FakeRepo, action: SddGitAction) -> (Result<(), String>, Vec<String>) {
    let (mut run, mut step) = SddGitRun::start(action);
    let mut warnings = Vec::new();
    loop {
        if let SddStep::Done(result) = step {
            return (result, warnings);
        }
        if let SddStep::Warn(w) = &step {
            warnings.push(w.clone());
        }
        let outcome = repo.answer(&step);
        step = run.advance(outcome);
    }
}

fn repo(branch: &str, dirty: bool) -> FakeRepo {
    FakeRepo { branch: branch.to_string(), dirty, commands: Vec::new() }
}

#[test]
fn sdd_git_action_create_branch_dispatches() {
    let mut r = repo("develop-main", false);
    let branch_name = "sdd/test-create-branch";
    let (result, _) = drive(
        &mut r,
        SddGitAction::CreateBranch { name: branch_name.to_string(), base: "develop-main".to_string() },
    );
    assert_eq!(result, Ok(()));
    assert_eq!(r.branch, branch_name);
    assert_eq!(r.commands, vec![vec!["checkout".to_string(), "-b".to_string(), branch_name.to_string()]]);
}

#[test]
fn branch_and_base_names_are_checked() {
    assert_eq!(ensure_sdd_branch("sdd/ok-name"), Ok(()));
    assert_eq!(ensure_sdd_branch("feature/x"), Err("仅允许操作 `sdd/` 前缀分支，收到 `feature/x`。".to_string()));
    assert_eq!(ensure_sdd_branch("sdd/"), Err("分支名无效：`sdd/`。".to_string()));
    assert_eq!(ensure_sdd_branch("sdd/a b"), Err("分支名包含空白字符：`sdd/a b`。".to_string()));
    assert_eq!(ensure_sdd_branch("sdd/../x"), Err("分支名包含非法片段：`sdd/../x`。".to_string()));
    assert_eq!(ensure_base_branch("develop-main"), Ok(()));
    assert_eq!(ensure_base_branch("main"), Err("仅允许使用基线分支 `develop-main`，收到 `main`。".to_string()));
}

#[test]
fn invalid_actions_run_no_command() {
    let mut r = repo("develop-main", false);
    let (result, _) = drive(&mut r, SddGitAction::CreateBranch { name: "topic".to_string(), base: "develop-main".to_string() });
    assert!(result.is_err());
    let (result, _) = drive(&mut r, SddGitAction::AbandonBranch { name: "sdd/x".to_string(), base: "main".to_string() });
    assert!(result.is_err());
    assert!(r.commands.is_empty());
}

#[test]
fn finalize_refuses_dirty_tree_on_other_branch() {
    let mut r = repo("develop-main", true);
    let (result, _) = drive(
        &mut r,
        SddGitAction::FinalizeMerge {
            name: "sdd/feature".to_string(),
            base: "develop-main".to_string(),
            commit_message: "done".to_string(),
        },
    );
    assert_eq!(result, Err("工作区有未提交修改，且当前不在 SDD 分支，无法继续合并。".to_string()));
    assert!(r.commands.is_empty());
}

#[test]
fn finalize_commits_then_merges() {
    let mut r = repo("sdd/feature", true);
    let (result, warnings) = drive(
        &mut r,
        SddGitAction::FinalizeMerge {
            name: "sdd/feature".to_string(),
            base: "develop-main".to_string(),
            commit_message: "done".to_string(),
        },
    );
    assert_eq!(result, Ok(()));
    assert!(warnings.is_empty());
    let as_strs: Vec<Vec<&str>> = r.commands.iter().map(|c| c.iter().map(String::as_str).collect()).collect();
    assert_eq!(
        as_strs,
        vec![
            vec!["add", "-A"],
            vec!["commit", "-m", "done"],
            vec!["checkout", "develop-main"],
            vec!["merge", "--no-ff", "sdd/feature"],
        ]
    );
    let mut clean = repo("sdd/feature", false);
    let (result, warnings) = drive(
        &mut clean,
        SddGitAction::FinalizeMerge {
            name: "sdd/feature".to_string(),
            base: "develop-main".to_string(),
            commit_message: "done".to_string(),
        },
    );
    assert_eq!(result, Ok(()));
    assert_eq!(warnings, vec!["工作区无变更，跳过提交。".to_string()]);
}

#[test]
fn abandon_and_switch() {
    let mut r = repo("sdd/old", false);
    let (result, _) = drive(&mut r, SddGitAction::AbandonBranch { name: "sdd/old".to_string(), base: "develop-main".to_string() });
    assert_eq!(result, Ok(()));
    assert_eq!(r.commands.last().unwrap(), &vec!["branch".to_string(), "-D".to_string(), "sdd/old".to_string()]);
    let mut s = repo("sdd/a", false);
    let (result, _) = drive(&mut s, SddGitAction::SwitchBranch { name: "sdd/a".to_string() });
    assert_eq!(result, Ok(()));
    assert!(s.commands.is_empty());
    let mut dirty = repo("develop-main", true);
    let (result, _) = drive(&mut dirty, SddGitAction::CreateBranch { name: "sdd/n".to_string(), base: "develop-main".to_string() });
    assert_eq!(result, Err("工作区存在未提交修改，请先清理后再操作。".to_string()));
}

#[test]
fn failures_end_the_workflow() {
    let (mut run, _) = SddGitRun::start(SddGitAction::SwitchBranch { name: "sdd/a".to_string() });
    assert_eq!(run.advance(Ok("false".to_string())), SddStep::Done(Err("当前目录不是 Git 仓库，无法执行 SDD Git 操作。".to_string())));
    assert_eq!(run.advance(Ok("true".to_string())), SddStep::Done(Err("当前目录不是 Git 仓库，无法执行 SDD Git 操作。".to_string())));
    let (mut run, _) = SddGitRun::start(SddGitAction::SwitchBranch { name: "sdd/a".to_string() });
    assert_eq!(run.advance(Err("fatal".to_string())), SddStep::Done(Err("fatal".to_string())));
    assert_eq!(silent_git_result(false, "", "  "), Err("git 命令执行失败。".to_string()));
    assert_eq!(silent_git_result(false, "", " boom \n"), Err("boom".to_string()));
    assert_eq!(silent_git_result(true, " main\n", ""), Ok("main".to_string()));
    assert_eq!(sdd_command_result(&ExecOutcome::Cancelled), Err("SDD Git 命令已取消。".to_string()));
    let failed = ExecOutput {
        exit_code: 1,
        stdout: String::new(),
        stderr: String::new(),
        aggregated_output: "  ".to_string(),
        duration_ms: 3,
        timed_out: false,
    };
    assert_eq!(sdd_command_result(&ExecOutcome::Completed(failed)), Err("SDD Git 命令执行失败。".to_string()));
    assert_eq!(git_command(&vec!["status".to_string()]), vec!["git".to_string(), "status".to_string()]);
}

#[test]
fn task_starts_with_window_and_closes_failures_with_one_error() {
    let task = SddGitTask::new(SddGitAction::SwitchBranch { name: "sdd/a".to_string() });
    let (started, _, step) = task.start(Some(272000));
    assert_eq!(started, EventMsg::TaskStarted { model_context_window: Some(272000) });
    assert_eq!(step, SddStep::Query(GitQuery::InsideWorkTree));
    assert_eq!(SddGitTask::closing_event(&Ok(())), None);
    assert_eq!(
        SddGitTask::closing_event(&Err("boom".to_string())),
        Some(EventMsg::Error("boom".to_string()))
    );
}
