//! Commands a user invokes by starting a message with a slash.

use vstd::prelude::*;
use crate::text::text_of;

verus! {

/// A built-in command. The order is the order of presentation.
#[derive(Debug, Clone, Copy, PartialEq, Eq, Structural, Hash)]
pub enum SlashCommand {
    Model,
    Approvals,
    Review,
    New,
    Init,
    Checkpoint,
    Compact,
    Undo,
    Diff,
    Mention,
    Status,
    Mcp,
    Logout,
    Quit,
}

/// Every command, in order of presentation.
pub open spec fn all_commands() -> Seq<SlashCommand> {
    seq![
        SlashCommand::Model,
        SlashCommand::Approvals,
        SlashCommand::Review,
        SlashCommand::New,
        SlashCommand::Init,
        SlashCommand::Checkpoint,
        SlashCommand::Compact,
        SlashCommand::Undo,
        SlashCommand::Diff,
        SlashCommand::Mention,
        SlashCommand::Status,
        SlashCommand::Mcp,
        SlashCommand::Logout,
        SlashCommand::Quit,
    ]
}

/// Whether a command may run while a task is in progress.
pub open spec fn spec_available_during_task(c: SlashCommand) -> bool {
    match c {
        SlashCommand::Diff | SlashCommand::Mention | SlashCommand::Status | SlashCommand::Mcp
        | SlashCommand::Quit => true,
        _ => false,
    }
}

/// The commands shown: all of them, `Undo` only with beta features on.
pub open spec fn shown_commands(show_beta_features: bool) -> Seq<SlashCommand> {
    all_commands().filter(|c: SlashCommand| c != SlashCommand::Undo || show_beta_features)
}

impl SlashCommand {
    /// The command's name, without the leading slash.
    pub open spec fn spec_command(self) -> Seq<char> {
        match self {
            SlashCommand::Model => "model"@,
            SlashCommand::Approvals => "approvals"@,
            SlashCommand::Review => "review"@,
            SlashCommand::New => "new"@,
            SlashCommand::Init => "init"@,
            SlashCommand::Checkpoint => "checkpoint"@,
            SlashCommand::Compact => "compact"@,
            SlashCommand::Undo => "undo"@,
            SlashCommand::Diff => "diff"@,
            SlashCommand::Mention => "mention"@,
            SlashCommand::Status => "status"@,
            SlashCommand::Mcp => "mcp"@,
            SlashCommand::Logout => "logout"@,
            SlashCommand::Quit => "quit"@,
        }
    }

    /// The description shown in the command popup.
    pub open spec fn spec_description(self) -> Seq<char> {
        match self {
            SlashCommand::New => "在对话中开始新的聊天"@,
            SlashCommand::Init => "创建包含 Codex 指南的 AGENTS.md 文件"@,
            SlashCommand::Checkpoint => "阶段性记录 AI 所执行的操作"@,
            SlashCommand::Compact => "总结当前对话以避免上下文超限"@,
            SlashCommand::Review => "审查当前改动并查找问题"@,
            SlashCommand::Undo => "恢复到上一次 Codex 快照"@,
            SlashCommand::Quit => "退出 Codex"@,
            SlashCommand::Diff => "显示 git diff（包含未跟踪文件）"@,
            SlashCommand::Mention => "在消息中提及文件"@,
            SlashCommand::Status => "显示会话配置与令牌使用情况"@,
            SlashCommand::Model => "选择模型及推理强度"@,
            SlashCommand::Approvals => "配置 Codex 无需审批即可执行的操作"@,
            SlashCommand::Mcp => "列出已配置的 MCP 工具"@,
            SlashCommand::Logout => "注销 Codex 登录"@,
        }
    }

    /// The description shown in the command popup.
    pub fn description(self) -> (r: String)
        ensures
            r@ == self.spec_description(),
    {
        match self {
            SlashCommand::New => text_of("在对话中开始新的聊天"),
            SlashCommand::Init => text_of("创建包含 Codex 指南的 AGENTS.md 文件"),
            SlashCommand::Checkpoint => text_of("阶段性记录 AI 所执行的操作"),
            SlashCommand::Compact => text_of("总结当前对话以避免上下文超限"),
            SlashCommand::Review => text_of("审查当前改动并查找问题"),
            SlashCommand::Undo => text_of("恢复到上一次 Codex 快照"),
            SlashCommand::Quit => text_of("退出 Codex"),
            SlashCommand::Diff => text_of("显示 git diff（包含未跟踪文件）"),
            SlashCommand::Mention => text_of("在消息中提及文件"),
            SlashCommand::Status => text_of("显示会话配置与令牌使用情况"),
            SlashCommand::Model => text_of("选择模型及推理强度"),
            SlashCommand::Approvals => text_of("配置 Codex 无需审批即可执行的操作"),
            SlashCommand::Mcp => text_of("列出已配置的 MCP 工具"),
            SlashCommand::Logout => text_of("注销 Codex 登录"),
        }
    }

    /// The command's name, without the leading slash.
    pub fn command(self) -> (r: String)
        ensures
            r@ == self.spec_command(),
    {
        match self {
            SlashCommand::Model => text_of("model"),
            SlashCommand::Approvals => text_of("approvals"),
            SlashCommand::Review => text_of("review"),
            SlashCommand::New => text_of("new"),
            SlashCommand::Init => text_of("init"),
            SlashCommand::Checkpoint => text_of("checkpoint"),
            SlashCommand::Compact => text_of("compact"),
            SlashCommand::Undo => text_of("undo"),
            SlashCommand::Diff => text_of("diff"),
            SlashCommand::Mention => text_of("mention"),
            SlashCommand::Status => text_of("status"),
            SlashCommand::Mcp => text_of("mcp"),
            SlashCommand::Logout => text_of("logout"),
            SlashCommand::Quit => text_of("quit"),
        }
    }

    /// Whether the command may run while a task is in progress.
    pub fn available_during_task(self) -> (r: bool)
        ensures
            r == spec_available_during_task(self),
    {
        match self {
            SlashCommand::New | SlashCommand::Init | SlashCommand::Checkpoint
            | SlashCommand::Compact | SlashCommand::Undo | SlashCommand::Model
            | SlashCommand::Approvals | SlashCommand::Review | SlashCommand::Logout => false,
            SlashCommand::Diff | SlashCommand::Mention | SlashCommand::Status | SlashCommand::Mcp
            | SlashCommand::Quit => true,
        }
    }

    /// Every command, in order of presentation.
    pub fn all() -> (r: Vec<SlashCommand>)
        ensures
            r@ == all_commands(),
    {
        let r = vec![
            SlashCommand::Model,
            SlashCommand::Approvals,
            SlashCommand::Review,
            SlashCommand::New,
            SlashCommand::Init,
            SlashCommand::Checkpoint,
            SlashCommand::Compact,
            SlashCommand::Undo,
            SlashCommand::Diff,
            SlashCommand::Mention,
            SlashCommand::Status,
            SlashCommand::Mcp,
            SlashCommand::Logout,
            SlashCommand::Quit,
        ];
        assert(r@ =~= all_commands());
        r
    }
}

/// The commands shown in the popup, each with its name, in order; `Undo`
/// only where beta features are on.
pub fn built_in_slash_commands(show_beta_features: bool) -> (r: Vec<(String, SlashCommand)>)
    ensures
        r@.map_values(|p: (String, SlashCommand)| p.1) == shown_commands(show_beta_features),
        forall|i: int| 0 <= i < r@.len() ==> #[trigger] r@[i].0@ == r@[i].1.spec_command(),
{
    let all = SlashCommand::all();
    let mut r: Vec<(String, SlashCommand)> = Vec::new();
    let mut i: usize = 0;
    let ghost keep = |c: SlashCommand| c != SlashCommand::Undo || show_beta_features;
    while i < all.len()
        invariant
            i <= all.len(),
            all@ == all_commands(),
            keep == (|c: SlashCommand| c != SlashCommand::Undo || show_beta_features),
            r@.map_values(|p: (String, SlashCommand)| p.1) == all@.subrange(0, i as int).filter(keep),
            forall|k: int| 0 <= k < r@.len() ==> #[trigger] r@[k].0@ == r@[k].1.spec_command(),
        decreases all.len() - i,
    {
        let c = all[i];
        proof {
            let s = all@.subrange(0, i as int + 1);
            assert(s.drop_last() =~= all@.subrange(0, i as int));
            assert(s.filter(keep) == s.drop_last().filter(keep) + if keep(s.last()) {
                seq![s.last()]
            } else {
                Seq::empty()
            }) by {
                reveal(Seq::filter);
                assert(s.filter(keep) =~= if keep(s.last()) {
                    s.drop_last().filter(keep).push(s.last())
                } else {
                    s.drop_last().filter(keep)
                });
            }
        }
        if c != SlashCommand::Undo || show_beta_features {
            let ghost before = r@;
            r.push((c.command(), c));
            assert(r@.map_values(|p: (String, SlashCommand)| p.1) =~= before.map_values(
                |p: (String, SlashCommand)| p.1,
            ).push(c));
        }
        assert(r@.map_values(|p: (String, SlashCommand)| p.1) =~= all@.subrange(0, i as int + 1).filter(keep));
        i = i + 1;
    }
    assert(all@.subrange(0, all@.len() as int) =~= all@);
    r
}

} // verus!
