//! The prompt that offers a newer model: accept it, keep the current one
//! (where the copy allows opting out), or leave.

use vstd::prelude::*;
use crate::keys::{KeyCode, KeyEvent, KeyEventKind};
use crate::text::{same_text, text_of};

verus! {

/// How the prompt ended.
#[derive(Debug, Clone, Copy, PartialEq, Eq, Structural)]
pub enum ModelMigrationOutcome {
    Accepted,
    Rejected,
    Exit,
}

/// A choice of the prompt's menu.
#[derive(Debug, Clone, Copy, PartialEq, Eq, Structural)]
pub enum MigrationMenuOption {
    TryNewModel,
    UseExistingModel,
}

impl MigrationMenuOption {
    /// Both choices, in menu order.
    pub fn all() -> (r: [MigrationMenuOption; 2])
        ensures
            r@ == seq![MigrationMenuOption::TryNewModel, MigrationMenuOption::UseExistingModel],
    {
        let r = [MigrationMenuOption::TryNewModel, MigrationMenuOption::UseExistingModel];
        assert(r@ =~= seq![MigrationMenuOption::TryNewModel, MigrationMenuOption::UseExistingModel]);
        r
    }

    pub fn label(self) -> (r: String)
        ensures
            self == MigrationMenuOption::TryNewModel ==> r@ == "试用新模型"@,
            self == MigrationMenuOption::UseExistingModel ==> r@ == "继续使用当前模型"@,
    {
        match self {
            MigrationMenuOption::TryNewModel => text_of("试用新模型"),
            MigrationMenuOption::UseExistingModel => text_of("继续使用当前模型"),
        }
    }
}

/// The text of a prompt and whether it lets the user keep the current model.
#[derive(Debug, Clone, PartialEq, Eq)]
pub struct ModelMigrationCopy {
    pub heading: String,
    pub content: Vec<String>,
    pub can_opt_out: bool,
}

/// The configuration key that hides the gpt-5.1 migration prompt.
pub open spec fn gpt5_1_key() -> Seq<char> {
    "hide_gpt5_1_migration_prompt"@
}

fn gpt_5_1_codex_max_migration_copy() -> (r: ModelMigrationCopy)
    ensures
        r.can_opt_out,
        r.heading@ == "Codex 再升级：gpt-5.1-codex-max"@,
        r.content@.len() == 2,
{
    ModelMigrationCopy {
        heading: text_of("Codex 再升级：gpt-5.1-codex-max"),
        content: vec![
            text_of("Codex 现已由 gpt-5.1-codex-max 驱动，这是我们最新的旗舰级代理式编码模型，具备更强推理能力，也更擅长处理长程项目。"),
            text_of("了解更多：www.openai.com/index/gpt-5-1-codex-max."),
        ],
        can_opt_out: true,
    }
}

fn gpt5_migration_copy() -> (r: ModelMigrationCopy)
    ensures
        !r.can_opt_out,
        r.heading@ == "全新 gpt-5.1 模型"@,
        r.content@.len() == 3,
{
    ModelMigrationCopy {
        heading: text_of("全新 gpt-5.1 模型"),
        content: vec![
            text_of("Codex 已全面升级至 gpt-5.1 系列（含 gpt-5.1-codex 及 gpt-5.1-codex-mini），默认体验更稳更快。"),
            text_of("如需继续使用旧模型，可通过 -m 参数或在 config.toml 中直接指定模型名称。"),
            text_of("了解更多：www.openai.com/index/gpt-5-1."),
        ],
        can_opt_out: false,
    }
}

/// The prompt for a migration key: the gpt-5.1 prompt, which cannot be
/// declined, for its key; the gpt-5.1-codex-max prompt for any other.
pub fn migration_copy_for_config(migration_config_key: &str) -> (r: ModelMigrationCopy)
    ensures
        r.can_opt_out == (migration_config_key@ != gpt5_1_key()),
        migration_config_key@ == gpt5_1_key() ==> r.heading@ == "全新 gpt-5.1 模型"@,
        migration_config_key@ != gpt5_1_key() ==> r.heading@ == "Codex 再升级：gpt-5.1-codex-max"@,
{
    if same_text(migration_config_key, "hide_gpt5_1_migration_prompt") {
        gpt5_migration_copy()
    } else {
        gpt_5_1_codex_max_migration_copy()
    }
}

/// The state of the prompt.
pub struct ModelMigrationScreen {
    pub can_opt_out: bool,
    pub done: bool,
    pub outcome: ModelMigrationOutcome,
    pub highlighted_option: MigrationMenuOption,
    /// Whether the screen asked to be drawn again.
    pub redraw_requested: bool,
}

impl ModelMigrationScreen {
    pub fn new(copy: &ModelMigrationCopy) -> (r: ModelMigrationScreen)
        ensures
            r.can_opt_out == copy.can_opt_out,
            !r.done,
            r.outcome == ModelMigrationOutcome::Accepted,
            r.highlighted_option == MigrationMenuOption::TryNewModel,
            !r.redraw_requested,
    {
        ModelMigrationScreen {
            can_opt_out: copy.can_opt_out,
            done: false,
            outcome: ModelMigrationOutcome::Accepted,
            highlighted_option: MigrationMenuOption::TryNewModel,
            redraw_requested: false,
        }
    }

    fn finish_with(&mut self, outcome: ModelMigrationOutcome)
        ensures
            final(self).done,
            final(self).outcome == outcome,
            final(self).redraw_requested,
            final(self).can_opt_out == old(self).can_opt_out,
            final(self).highlighted_option == old(self).highlighted_option,
    {
        self.outcome = outcome;
        self.done = true;
        self.redraw_requested = true;
    }

    pub fn accept(&mut self)
        ensures
            final(self).done && final(self).outcome == ModelMigrationOutcome::Accepted,
            final(self).can_opt_out == old(self).can_opt_out,
            final(self).highlighted_option == old(self).highlighted_option,
    {
        self.finish_with(ModelMigrationOutcome::Accepted);
    }

    pub fn reject(&mut self)
        ensures
            final(self).done && final(self).outcome == ModelMigrationOutcome::Rejected,
            final(self).can_opt_out == old(self).can_opt_out,
            final(self).highlighted_option == old(self).highlighted_option,
    {
        self.finish_with(ModelMigrationOutcome::Rejected);
    }

    pub fn exit(&mut self)
        ensures
            final(self).done && final(self).outcome == ModelMigrationOutcome::Exit,
            final(self).can_opt_out == old(self).can_opt_out,
    {
        self.finish_with(ModelMigrationOutcome::Exit);
    }

    /// Takes the highlighted choice, or accepts where opting out is not offered.
    pub fn confirm_selection(&mut self)
        ensures
            final(self).done,
            final(self).can_opt_out == old(self).can_opt_out,
            final(self).highlighted_option == old(self).highlighted_option,
            final(self).outcome == if old(self).can_opt_out && old(self).highlighted_option
                == MigrationMenuOption::UseExistingModel {
                ModelMigrationOutcome::Rejected
            } else {
                ModelMigrationOutcome::Accepted
            },
    {
        if self.can_opt_out {
            match self.highlighted_option {
                MigrationMenuOption::TryNewModel => self.accept(),
                MigrationMenuOption::UseExistingModel => self.reject(),
            }
        } else {
            self.accept();
        }
    }

    /// Highlights a choice, asking for a redraw where it changed.
    pub fn highlight_option(&mut self, option: MigrationMenuOption)
        ensures
            final(self).highlighted_option == option,
            final(self).done == old(self).done,
            final(self).outcome == old(self).outcome,
            final(self).can_opt_out == old(self).can_opt_out,
            final(self).redraw_requested == (old(self).redraw_requested || old(self).highlighted_option != option),
    {
        if self.highlighted_option != option {
            self.highlighted_option = option;
            self.redraw_requested = true;
        }
    }

    /// Handles a key. Control-C and Control-D leave. Without opting out,
    /// Enter and Esc accept. Otherwise up/`k` and down/`j` move the
    /// highlight, `1` accepts, `2` declines, and Enter and Esc confirm the
    /// highlighted choice. Releases do nothing.
    pub fn handle_key(&mut self, key: KeyEvent)
        ensures
            final(self).can_opt_out == old(self).can_opt_out,
            ({
                let live = key.kind != KeyEventKind::Release && !(key.control && (key.code
                    == KeyCode::Char('c') || key.code == KeyCode::Char('d'))) && old(self).can_opt_out;
                &&& live && (key.code == KeyCode::Up || key.code == KeyCode::Char('k'))
                    ==> final(self).highlighted_option == MigrationMenuOption::TryNewModel
                    && final(self).done == old(self).done && final(self).outcome == old(self).outcome
                &&& live && (key.code == KeyCode::Down || key.code == KeyCode::Char('j'))
                    ==> final(self).highlighted_option == MigrationMenuOption::UseExistingModel
                    && final(self).done == old(self).done && final(self).outcome == old(self).outcome
                &&& live && (key.code == KeyCode::Enter || key.code == KeyCode::Esc)
                    ==> final(self).done && final(self).outcome == if old(self).highlighted_option
                    == MigrationMenuOption::UseExistingModel {
                    ModelMigrationOutcome::Rejected
                } else {
                    ModelMigrationOutcome::Accepted
                }
                &&& live && !(key.code == KeyCode::Up || key.code == KeyCode::Char('k') || key.code
                    == KeyCode::Down || key.code == KeyCode::Char('j') || key.code == KeyCode::Enter
                    || key.code == KeyCode::Esc || key.code == KeyCode::Char('1') || key.code
                    == KeyCode::Char('2')) ==> final(self).done == old(self).done && final(self).outcome == old(self).outcome && final(self).highlighted_option == old(self).highlighted_option
            }),
            key.kind == KeyEventKind::Release ==> final(self).done == old(self).done
                && final(self).outcome == old(self).outcome,
            key.kind != KeyEventKind::Release && key.control && (key.code == KeyCode::Char('c')
                || key.code == KeyCode::Char('d')) ==> final(self).done && final(self).outcome
                == ModelMigrationOutcome::Exit,
            key.kind != KeyEventKind::Release && !(key.control && (key.code == KeyCode::Char('c')
                || key.code == KeyCode::Char('d'))) && !old(self).can_opt_out && (key.code
                == KeyCode::Enter || key.code == KeyCode::Esc) ==> final(self).done
                && final(self).outcome == ModelMigrationOutcome::Accepted,
            key.kind != KeyEventKind::Release && !(key.control && (key.code == KeyCode::Char('c')
                || key.code == KeyCode::Char('d'))) && old(self).can_opt_out && key.code
                == KeyCode::Char('2') ==> final(self).done && final(self).outcome
                == ModelMigrationOutcome::Rejected,
            key.kind != KeyEventKind::Release && !(key.control && (key.code == KeyCode::Char('c')
                || key.code == KeyCode::Char('d'))) && old(self).can_opt_out && key.code
                == KeyCode::Char('1') ==> final(self).done && final(self).outcome
                == ModelMigrationOutcome::Accepted,
    {
        if key.kind == KeyEventKind::Release {
            return;
        }
        if key.control && (key.code == KeyCode::Char('c') || key.code == KeyCode::Char('d')) {
            self.exit();
            return;
        }
        if !self.can_opt_out {
            if key.code == KeyCode::Esc || key.code == KeyCode::Enter {
                self.accept();
            }
            return;
        }
        match key.code {
            KeyCode::Up | KeyCode::Char('k') => {
                self.highlight_option(MigrationMenuOption::TryNewModel);
            },
            KeyCode::Down | KeyCode::Char('j') => {
                self.highlight_option(MigrationMenuOption::UseExistingModel);
            },
            KeyCode::Char('1') => {
                self.highlight_option(MigrationMenuOption::TryNewModel);
                self.accept();
            },
            KeyCode::Char('2') => {
                self.highlight_option(MigrationMenuOption::UseExistingModel);
                self.reject();
            },
            KeyCode::Enter | KeyCode::Esc => {
                self.confirm_selection();
            },
            _ => {},
        }
    }

    pub fn is_done(&self) -> (r: bool)
        ensures
            r == self.done,
    {
        self.done
    }

    pub fn outcome(&self) -> (r: ModelMigrationOutcome)
        ensures
            r == self.outcome,
    {
        self.outcome
    }
}

} // verus!
