use agent_core::additional_dirs::add_dir_warning_message;
use agent_core::config_types::Language;
use agent_core::exec::SandboxPolicy;
use agent_core::i18n::{Catalog, CatalogNode, Catalogs};

fn catalogs() -> Catalogs {
    let doc = CatalogNode::Table(vec![(
        "additional_dirs".to_string(),
        CatalogNode::Table(vec![(
            "read_only_warning".to_string(),
            CatalogNode::Text(
                "由于当前沙箱模式为只读，--add-dir (${paths}) 将被忽略。请切换到 workspace-write 或 danger-full-access 以允许额外的可写根目录。"
                    .to_string(),
            ),
        )]),
    )]);
    Catalogs { en: Catalog::new(), zh_cn: Catalog::from_node(&doc).unwrap() }
}

#[test]
fn returns_none_for_workspace_write() {
    let dirs = vec!["/tmp/example".to_string()];
    assert_eq!(add_dir_warning_message(&catalogs(), &dirs, SandboxPolicy::WorkspaceWrite, Language::ZhCn), None);
}

#[test]
fn returns_none_for_danger_full_access() {
    let dirs = vec!["/tmp/example".to_string()];
    assert_eq!(add_dir_warning_message(&catalogs(), &dirs, SandboxPolicy::DangerFullAccess, Language::ZhCn), None);
}

#[test]
fn returns_none_for_external_sandbox() {
    let dirs = vec!["/tmp/example".to_string()];
    assert_eq!(add_dir_warning_message(&catalogs(), &dirs, SandboxPolicy::ExternalSandbox, Language::ZhCn), None);
}

#[test]
fn warns_for_read_only() {
    let dirs = vec!["relative".to_string(), "/abs".to_string()];
    let message = add_dir_warning_message(&catalogs(), &dirs, SandboxPolicy::ReadOnly, Language::ZhCn)
        .expect("expected warning for read-only sandbox");
    assert_eq!(
        message,
        "由于当前沙箱模式为只读，--add-dir (relative, /abs) 将被忽略。请切换到 workspace-write 或 danger-full-access 以允许额外的可写根目录。"
    );
}

#[test]
fn returns_none_when_no_additional_dirs() {
    let dirs: Vec<String> = Vec::new();
    assert_eq!(add_dir_warning_message(&catalogs(), &dirs, SandboxPolicy::ReadOnly, Language::ZhCn), None);
}
