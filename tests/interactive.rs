use agent_core::keys::{KeyCode, KeyEvent, KeyEventKind};
use agent_core::model_migration::{
    migration_copy_for_config, MigrationMenuOption, ModelMigrationOutcome, ModelMigrationScreen,
};
use agent_core::onboarding::{SetupRequest, StepState, WindowsSetupWidget};
use agent_core::slash_command::{built_in_slash_commands, SlashCommand};
use agent_core::ui_text::language_name;
use agent_core::config_types::Language;
use agent_core::update_action::{get_update_action, UpdateAction};

fn press(code: KeyCode) -> KeyEvent {
    KeyEvent { code, kind: KeyEventKind::Press, control: false }
}

#[test]
fn escape_key_accepts_prompt() {
    let copy = migration_copy_for_config("hide_gpt-5.1-codex-max_migration_prompt");
    let mut screen = ModelMigrationScreen::new(&copy);
    screen.handle_key(press(KeyCode::Esc));
    assert!(screen.is_done());
    assert!(matches!(screen.outcome(), ModelMigrationOutcome::Accepted));
}

#[test]
fn selecting_use_existing_model_rejects_upgrade() {
    let copy = migration_copy_for_config("hide_gpt-5.1-codex-max_migration_prompt");
    let mut screen = ModelMigrationScreen::new(&copy);
    screen.handle_key(press(KeyCode::Down));
    screen.handle_key(press(KeyCode::Enter));
    assert!(screen.is_done());
    assert!(matches!(screen.outcome(), ModelMigrationOutcome::Rejected));
}

#[test]
fn migration_prompt_without_opt_out_and_control_keys() {
    let copy = migration_copy_for_config("hide_gpt5_1_migration_prompt");
    assert!(!copy.can_opt_out);
    let mut screen = ModelMigrationScreen::new(&copy);
    screen.handle_key(press(KeyCode::Char('2')));
    assert!(!screen.is_done());
    screen.handle_key(KeyEvent { code: KeyCode::Char('c'), kind: KeyEventKind::Press, control: true });
    assert_eq!(screen.outcome(), ModelMigrationOutcome::Exit);
    assert_eq!(MigrationMenuOption::all()[1].label(), "继续使用当前模型");
}

#[test]
fn windows_step_hidden_after_continue() {
    let mut widget = WindowsSetupWidget::new("/tmp/home".to_string());
    assert_eq!(widget.get_step_state(), StepState::InProgress);
    widget.finish_continue(Ok(()));
    assert_eq!(widget.get_step_state(), StepState::Hidden);
    assert!(!widget.exit_requested());
}

#[test]
fn windows_step_complete_after_install_selection() {
    let mut widget = WindowsSetupWidget::new("/tmp/home".to_string());
    widget.handle_install();
    assert_eq!(widget.get_step_state(), StepState::Complete);
    assert!(widget.exit_requested());
}

#[test]
fn windows_step_keys_and_failed_persist() {
    let mut widget = WindowsSetupWidget::new("/tmp/home".to_string());
    assert_eq!(widget.handle_key_event(press(KeyCode::Char('j'))), SetupRequest::Nothing);
    assert_eq!(widget.handle_key_event(press(KeyCode::Enter)), SetupRequest::PersistAcknowledgement);
    widget.finish_continue(Err("disk full".to_string()));
    assert_eq!(widget.error.as_deref(), Some("更新配置失败：disk full"));
    assert_eq!(widget.get_step_state(), StepState::InProgress);
    let release = KeyEvent { code: KeyCode::Char('1'), kind: KeyEventKind::Release, control: false };
    assert_eq!(widget.handle_key_event(release), SetupRequest::Nothing);
    assert!(!widget.exit_requested());
}

#[test]
fn slash_commands_hide_undo_without_beta() {
    let without = built_in_slash_commands(false);
    assert!(without.iter().all(|(_, c)| *c != SlashCommand::Undo));
    assert_eq!(without.len(), 13);
    let with = built_in_slash_commands(true);
    assert_eq!(with.len(), 14);
    assert_eq!(with[0], ("model".to_string(), SlashCommand::Model));
    assert_eq!(with[7], ("undo".to_string(), SlashCommand::Undo));
    assert!(SlashCommand::Quit.available_during_task());
    assert!(!SlashCommand::Compact.available_during_task());
    assert_eq!(SlashCommand::Compact.description(), "总结当前对话以避免上下文超限");
}

#[test]
fn update_action_and_language_names() {
    assert_eq!(get_update_action(), Some(UpdateAction::OpenReleasePage));
    assert_eq!(
        UpdateAction::OpenReleasePage.release_url(),
        "https://github.com/yuemingruoan/better-chinese-codex/releases"
    );
    assert_eq!(language_name(Language::ZhCn, Language::En), "英文");
    assert_eq!(language_name(Language::En, Language::ZhCn), "Simplified Chinese");
    assert_eq!(Language::from_tag("  ZH-Hans "), Language::ZhCn);
    assert_eq!(Language::from_tag("fr"), Language::En);
}
