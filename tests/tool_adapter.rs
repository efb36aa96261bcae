use agent_core::tool_adapter::{
    map_skill_to_spawn_payload, map_task_output_to_wait_payload, map_task_stop_to_close_payload,
    map_task_to_spawn_payload, map_tool_search_payload, normalize_text, AliasArgs, AliasTool,
    ArgValue, CanonicalArgs, ClaudeToolAdapterHandler, SkillArgs, TaskArgs, TaskOutputArgs,
    TaskStopArgs, ToolSearchArgs,
};
use agent_core::tools::{FunctionCallError, ToolPayload};

fn args(fields: Vec<(&str, ArgValue)>) -> CanonicalArgs {
    CanonicalArgs { fields: fields.into_iter().map(|(k, v)| (k.to_string(), v)).collect() }
}

fn object(fields: &[(&str, &str)]) -> Vec<(String, String)> {
    fields.iter().map(|(k, v)| (k.to_string(), v.to_string())).collect()
}

#[test]
fn task_output_non_blocking_maps_to_zero_timeout() {
    let payload = map_task_output_to_wait_payload(TaskOutputArgs {
        task_id: Some("agent-1".to_string()),
        block: false,
        timeout: Some(5000),
    })
    .expect("payload should be valid");

    assert_eq!(
        payload,
        args(vec![
            ("ids", ArgValue::Texts(vec!["agent-1".to_string()])),
            ("timeout_ms", ArgValue::Int(0)),
        ])
    );
}

#[test]
fn task_maps_supported_agent_type_and_label() {
    let payload = map_task_to_spawn_payload(TaskArgs {
        description: Some("Investigate failing test".to_string()),
        prompt: Some("Check latest regression".to_string()),
        subagent_type: Some("explorer".to_string()),
        max_turns: None,
        mode: None,
        model: Some("gpt-5.1-codex-mini".to_string()),
        name: None,
        resume: None,
        run_in_background: None,
        team_name: None,
    })
    .expect("payload should be valid");

    assert_eq!(
        payload,
        args(vec![
            ("items", ArgValue::Objects(vec![object(&[("type", "text"), ("text", "Check latest regression")])])),
            ("agent_type", ArgValue::Text("explorer".to_string())),
            ("label", ArgValue::Text("Investigate failing test".to_string())),
            ("model", ArgValue::Text("gpt-5.1-codex-mini".to_string())),
        ])
    );
}

#[test]
fn tool_search_maps_max_results_to_limit() {
    let payload = map_tool_search_payload(ToolSearchArgs {
        query: Some("slack send".to_string()),
        max_results: Some(3),
    })
    .expect("payload should be valid");

    assert_eq!(
        payload,
        args(vec![
            ("query", ArgValue::Text("slack send".to_string())),
            ("limit", ArgValue::Count(3)),
        ])
    );
}

#[test]
fn skill_maps_to_spawnable_skill_item() {
    let payload = map_skill_to_spawn_payload(SkillArgs {
        skill: Some("review-pr".to_string()),
        args: Some("123".to_string()),
    })
    .expect("skill payload should be valid");

    assert_eq!(
        payload,
        args(vec![
            (
                "items",
                ArgValue::Objects(vec![
                    object(&[("type", "skill"), ("name", "review-pr"), ("path", "skill://review-pr")]),
                    object(&[("type", "text"), ("text", "123")]),
                ]),
            ),
            ("label", ArgValue::Text("skill:review-pr".to_string())),
        ])
    );
}

#[test]
fn task_output_rejects_missing_task_id() {
    let err = map_task_output_to_wait_payload(TaskOutputArgs { task_id: None, block: true, timeout: None })
        .expect_err("missing task_id should fail");

    assert_eq!(
        err,
        FunctionCallError::RespondToModel("task_id must not be empty / task_id 不能为空".to_string())
    );
}

#[test]
fn task_output_rejects_negative_blocking_timeout() {
    let err = map_task_output_to_wait_payload(TaskOutputArgs {
        task_id: Some("agent-1".to_string()),
        block: true,
        timeout: Some(-1),
    })
    .expect_err("negative timeout should fail");

    assert_eq!(
        err,
        FunctionCallError::RespondToModel(
            "timeout must be greater than or equal to zero / timeout 必须大于等于 0".to_string()
        )
    );
}

#[test]
fn task_stop_accepts_shell_id_fallback() {
    let payload = map_task_stop_to_close_payload(TaskStopArgs {
        task_id: None,
        shell_id: Some("agent-2".to_string()),
    })
    .expect("shell_id fallback should map");

    assert_eq!(payload, args(vec![("id", ArgValue::Text("agent-2".to_string()))]));
}

#[test]
fn tool_search_rejects_zero_max_results() {
    let err = map_tool_search_payload(ToolSearchArgs { query: Some("list".to_string()), max_results: Some(0) })
        .expect_err("max_results=0 should fail");

    assert_eq!(
        err,
        FunctionCallError::RespondToModel(
            "max_results must be greater than zero / max_results 必须大于 0".to_string()
        )
    );
}

#[test]
fn task_rejects_blank_prompt_and_unsupported_agent_type() {
    let base = TaskArgs {
        description: Some("  ".to_string()),
        prompt: Some("   ".to_string()),
        subagent_type: Some("wizard".to_string()),
        max_turns: Some(3),
        mode: None,
        model: None,
        name: Some(" named ".to_string()),
        resume: None,
        run_in_background: Some(true),
        team_name: None,
    };
    assert_eq!(
        map_task_to_spawn_payload(base.clone()),
        Err(FunctionCallError::RespondToModel("prompt must not be empty / prompt 不能为空".to_string()))
    );
    let mut ok = base;
    ok.prompt = Some(" go ".to_string());
    assert_eq!(
        map_task_to_spawn_payload(ok).unwrap(),
        args(vec![
            ("items", ArgValue::Objects(vec![object(&[("type", "text"), ("text", "go")])])),
            ("label", ArgValue::Text("named".to_string())),
        ])
    );
}

#[test]
fn blocking_wait_keeps_timeout_and_stop_needs_an_id() {
    let payload = map_task_output_to_wait_payload(TaskOutputArgs {
        task_id: Some("a".to_string()),
        block: true,
        timeout: Some(250),
    })
    .unwrap();
    assert_eq!(
        payload,
        args(vec![("ids", ArgValue::Texts(vec!["a".to_string()])), ("timeout_ms", ArgValue::Int(250))])
    );
    assert!(map_task_stop_to_close_payload(TaskStopArgs { task_id: Some(" ".to_string()), shell_id: None }).is_err());
    assert_eq!(normalize_text(Some("  x  ")), Some("x".to_string()));
    assert_eq!(normalize_text(Some("   ")), None);
}

#[test]
fn adapter_routes_names_and_rejects_other_payloads() {
    let h = ClaudeToolAdapterHandler;
    assert_eq!(h.route("TaskStop"), Ok(AliasTool::TaskStop));
    assert_eq!(
        h.route("Bogus"),
        Err(FunctionCallError::RespondToModel(
            "unsupported tool alias Bogus / 不支持的工具别名: Bogus".to_string()
        ))
    );
    assert!(h.function_arguments(&ToolPayload::Custom { input: "x".to_string() }).is_err());
    assert_eq!(
        h.function_arguments(&ToolPayload::Function { arguments: "{}".to_string() }),
        Ok("{}".to_string())
    );
    let (target, _) = h
        .map_alias(AliasArgs::ToolSearch(ToolSearchArgs { query: Some("q".to_string()), max_results: None }))
        .unwrap();
    assert_eq!(target, "search_tool_bm25");
}
