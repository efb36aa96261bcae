use agent_core::cancellation::CancellationTree;
use agent_core::tooltips::{fetch_announcement_tip, pick_last_applicable, AnnouncementTipRaw};

#[test]
fn cancelling_a_task_spares_its_sibling() {
    let mut tree = CancellationTree::new();
    let session = tree.add(None);
    let task_a = tree.add(Some(session));
    let task_b = tree.add(Some(session));
    let command_a = tree.add(Some(task_a));
    tree.cancel(task_a);
    assert!(tree.is_cancelled(task_a));
    assert!(tree.is_cancelled(command_a));
    assert!(!tree.is_cancelled(task_b));
    assert!(!tree.is_cancelled(session));
}

#[test]
fn cancelling_the_session_cancels_everything_below() {
    let mut tree = CancellationTree::new();
    let session = tree.add(None);
    let task = tree.add(Some(session));
    let command = tree.add(Some(task));
    let other_root = tree.add(None);
    tree.cancel(session);
    assert!(tree.is_cancelled(task));
    assert!(tree.is_cancelled(command));
    assert!(!tree.is_cancelled(other_root));
    let late = tree.add(Some(task));
    assert!(tree.is_cancelled(late));
}

#[test]
fn last_applicable_candidate_wins() {
    let c = vec![
        ("a".to_string(), true),
        ("b".to_string(), true),
        ("c".to_string(), false),
    ];
    assert_eq!(pick_last_applicable(c), Some("b".to_string()));
    assert_eq!(pick_last_applicable(vec![("x".to_string(), false)]), None);
}

#[test]
fn announcement_waits_for_the_fetch() {
    assert_eq!(fetch_announcement_tip(None, "1.0.0", 740000), None);
    let raw = AnnouncementTipRaw {
        content: " This is a test announcement ".to_string(),
        from_date: None,
        to_date: None,
        version_regex: None,
        target_app: None,
    };
    assert_eq!(
        fetch_announcement_tip(Some(vec![raw]), "1.0.0", 740000),
        Some("This is a test announcement".to_string())
    );
}
