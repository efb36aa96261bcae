use agent_core::config_types::Language;
use agent_core::i18n::{insert_string, Catalog, Catalogs};
use agent_core::review_prompts::{
    resolve_review_request, review_prompt, user_facing_hint, ReviewRequest, ReviewTarget,
};

fn catalogs() -> Catalogs {
    let mut en = Catalog::new();
    insert_string("review.prompt.base_branch", "Review against ${baseBranch} at ${mergeBaseSha}", &mut en);
    insert_string("review.prompt.base_branch_backup", "Review against ${branch}", &mut en);
    insert_string("review.hint.commit_with_title", "commit ${sha}: ${title}", &mut en);
    insert_string("review.error.empty_prompt", "empty review prompt", &mut en);
    Catalogs { en, zh_cn: Catalog::new() }
}

#[test]
fn base_branch_prompt_uses_merge_base_when_found() {
    let c = catalogs();
    let target = ReviewTarget::BaseBranch { branch: "main".to_string() };
    assert_eq!(
        review_prompt(&c, Language::En, &target, Some("abc123".to_string())),
        Ok("Review against main at abc123".to_string())
    );
    assert_eq!(review_prompt(&c, Language::En, &target, None), Ok("Review against main".to_string()));
}

#[test]
fn commit_hint_shortens_sha_and_custom_is_trimmed() {
    let c = catalogs();
    let target = ReviewTarget::Commit { sha: "0123456789abcdef".to_string(), title: Some("Fix".to_string()) };
    assert_eq!(user_facing_hint(&c, Language::En, &target), "commit 0123456: Fix");
    let custom = ReviewTarget::Custom { instructions: "  look at tests  ".to_string() };
    assert_eq!(review_prompt(&c, Language::En, &custom, None), Ok("look at tests".to_string()));
    let blank = ReviewTarget::Custom { instructions: "   ".to_string() };
    assert_eq!(review_prompt(&c, Language::En, &blank, None), Err("empty review prompt".to_string()));
    let resolved = resolve_review_request(
        &c,
        Language::En,
        ReviewRequest { target: custom.clone(), user_facing_hint: None },
        None,
    )
    .unwrap();
    assert_eq!(resolved.user_facing_hint, "look at tests");
    let back: ReviewRequest = resolved.into();
    assert_eq!(back.user_facing_hint.as_deref(), Some("look at tests"));
}
