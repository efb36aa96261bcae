use agent_core::compact::{
    estimate_tokens, CompactionOutcome, CompactionResponse, HistoryItem, Role,
};
use agent_core::protocol::EventMsg;
use agent_core::session::{RolloutItem, Session, COMPACT_WARNING_MESSAGE, SUMMARY_PREFIX};

const SUMMARIZATION_PROMPT: &str = "Summarize the conversation so far.";

fn user(text: &str) -> HistoryItem {
    HistoryItem::Message { role: Role::User, text: text.to_string() }
}

fn summary(s: &str) -> HistoryItem {
    user(&format!("{SUMMARY_PREFIX}\n{s}"))
}

fn assistants(h: &[HistoryItem]) -> usize {
    h.iter().filter(|i| matches!(i, HistoryItem::Message { role: Role::Assistant, .. })).count()
}

fn compact_with(session: &mut Session, prompt: &str, responses: Vec<CompactionResponse>) -> Vec<Vec<HistoryItem>> {
    let mut run = session.start_compaction(prompt.to_string());
    let mut requests = Vec::new();
    let mut outcome = CompactionOutcome::Failed("no response".to_string());
    for response in responses {
        requests.push(run.request());
        outcome = run.on_response(response);
        if outcome != CompactionOutcome::Retry {
            break;
        }
    }
    session.finish_compaction(&run, outcome);
    requests
}

#[test]
fn summarize_context_three_requests_and_instructions() {
    let mut session = Session::new("/repo".to_string(), Some(272000));
    let first = session.submit_user_input("hello world".to_string());
    assert_eq!(first, vec![user("hello world")]);
    session.complete_model_call(Some("FIRST_REPLY".to_string()));

    let requests = compact_with(
        &mut session,
        SUMMARIZATION_PROMPT,
        vec![CompactionResponse::Summary("SUMMARY_ONLY_CONTEXT".to_string())],
    );
    assert_eq!(requests.len(), 1);
    assert_eq!(requests[0].last(), Some(&user(SUMMARIZATION_PROMPT)));
    assert!(session.events.iter().any(|e| *e == EventMsg::Warning(COMPACT_WARNING_MESSAGE.to_string())));
    assert_eq!(session.history, vec![summary("SUMMARY_ONLY_CONTEXT")]);

    let third = session.submit_user_input("next turn".to_string());
    assert_eq!(third, vec![summary("SUMMARY_ONLY_CONTEXT"), user("next turn")]);
    assert_eq!(assistants(&third), 0);
    assert!(!third.contains(&user(SUMMARIZATION_PROMPT)));
    session.complete_model_call(None);

    let turn_contexts = session.rollout.iter().filter(|r| matches!(r, RolloutItem::TurnContext { .. })).count();
    assert_eq!(turn_contexts, 2);
    assert!(session
        .rollout
        .iter()
        .any(|r| *r == RolloutItem::Compacted { summary: "SUMMARY_ONLY_CONTEXT".to_string() }));
}

#[test]
fn manual_compact_uses_custom_prompt() {
    let mut session = Session::new("/repo".to_string(), None);
    let custom_prompt = "Use this compact prompt instead";
    let requests = compact_with(&mut session, custom_prompt, vec![CompactionResponse::Summary(String::new())]);
    let found_custom = requests[0].contains(&user(custom_prompt));
    let found_default = requests[0].contains(&user(SUMMARIZATION_PROMPT));
    assert!(found_custom, "custom prompt should be injected");
    assert!(!found_default, "default prompt should be replaced when a compact prompt is used");
    assert!(session.events.iter().any(|e| *e == EventMsg::Warning(COMPACT_WARNING_MESSAGE.to_string())));
}

#[test]
fn manual_compact_emits_api_and_local_token_usage_events() {
    let mut session = Session::new("/repo".to_string(), None);
    compact_with(
        &mut session,
        SUMMARIZATION_PROMPT,
        vec![CompactionResponse::Summary("SUMMARY_ONLY_CONTEXT".to_string())],
    );
    let counts: Vec<i64> = session
        .events
        .iter()
        .filter_map(|e| match e {
            EventMsg::TokenCount(u) => Some(u.total_tokens),
            _ => None,
        })
        .collect();
    let chars = SUMMARY_PREFIX.chars().count() + 1 + "SUMMARY_ONLY_CONTEXT".len();
    assert_eq!(counts, vec![((chars + 3) / 4) as i64]);
    assert!(counts[0] > 0);
}

#[test]
fn manual_compact_twice_preserves_latest_user_messages() {
    let mut session = Session::new("/repo".to_string(), None);
    session.submit_user_input("first manual turn".to_string());
    session.complete_model_call(Some("r1".to_string()));
    compact_with(&mut session, SUMMARIZATION_PROMPT, vec![CompactionResponse::Summary("FIRST_MANUAL_SUMMARY".to_string())]);
    let second = session.submit_user_input("second manual turn".to_string());
    assert_eq!(second, vec![summary("FIRST_MANUAL_SUMMARY"), user("second manual turn")]);
    session.complete_model_call(Some("r2".to_string()));
    let requests = compact_with(
        &mut session,
        SUMMARIZATION_PROMPT,
        vec![CompactionResponse::Summary("SECOND_MANUAL_SUMMARY".to_string())],
    );
    assert!(requests[0].contains(&user("second manual turn")));
    let last = session.submit_user_input("post compact follow-up".to_string());
    assert_eq!(last, vec![summary("SECOND_MANUAL_SUMMARY"), user("post compact follow-up")]);
    assert_eq!(assistants(&last), 0);
}

#[test]
fn overflow_drops_one_oldest_item_per_retry() {
    let mut session = Session::new("/repo".to_string(), None);
    session.submit_user_input("a".to_string());
    session.complete_model_call(Some("b".to_string()));
    session.submit_user_input("c".to_string());
    let requests = compact_with(
        &mut session,
        "p",
        vec![
            CompactionResponse::ContextOverflow,
            CompactionResponse::ContextOverflow,
            CompactionResponse::Summary("S".to_string()),
        ],
    );
    assert_eq!(requests.len(), 3);
    assert_eq!(requests[0].len(), 4);
    assert_eq!(requests[1], vec![
        HistoryItem::Message { role: Role::Assistant, text: "b".to_string() },
        user("c"),
        user("p"),
    ]);
    assert_eq!(requests[2], vec![user("c"), user("p")]);
    assert!(session.events.iter().any(|e| matches!(e, EventMsg::BackgroundEvent(m) if m.starts_with("Trimmed 2 "))));
}

#[test]
fn overflow_with_empty_history_fails() {
    let mut session = Session::new("/repo".to_string(), None);
    compact_with(&mut session, "p", vec![CompactionResponse::ContextOverflow]);
    assert!(matches!(session.events[1], EventMsg::Error(_)));
    assert!(session.history.is_empty());
    assert_eq!(session.events.last(), Some(&EventMsg::TurnComplete));
}

#[test]
fn local_estimate_rounds_up() {
    assert_eq!(estimate_tokens(&vec![]), 0);
    assert_eq!(estimate_tokens(&vec![user("a")]), 1);
    assert_eq!(estimate_tokens(&vec![user("abcd"), user("abcde")]), 3);
}
