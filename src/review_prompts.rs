//! Review requests: the prompt sent to the reviewing model and the hint
//! shown to the user, for each kind of review target.

use vstd::prelude::*;
use crate::config_types::Language;
use crate::i18n::{arg_views, interpolated, tr, tr_args, translated, Catalogs};
use crate::text::{trim_text, trimmed};

verus! {

/// What a review looks at.
#[derive(Debug, Clone, PartialEq, Eq)]
pub enum ReviewTarget {
    UncommittedChanges,
    BaseBranch { branch: String },
    Commit { sha: String, title: Option<String> },
    Custom { instructions: String },
}

/// A review as requested.
#[derive(Debug, Clone, PartialEq, Eq)]
pub struct ReviewRequest {
    pub target: ReviewTarget,
    pub user_facing_hint: Option<String>,
}

/// A review with its prompt and hint settled.
#[derive(Debug, Clone, PartialEq, Eq)]
pub struct ResolvedReviewRequest {
    pub target: ReviewTarget,
    pub prompt: String,
    pub user_facing_hint: String,
}

fn tr1(catalogs: &Catalogs, language: Language, key: &str, name: &str, value: &str) -> (r: String)
    ensures
        r@ == interpolated(translated(*catalogs, language, key@), seq![(name@, value@)], 0),
{
    let args = [(name, value)];
    assert(arg_views(args@) =~= seq![(name@, value@)]);
    tr_args(catalogs, language, key, &args)
}

fn tr2(catalogs: &Catalogs, language: Language, key: &str, n1: &str, v1: &str, n2: &str, v2: &str) -> (r:
    String)
    ensures
        r@ == interpolated(translated(*catalogs, language, key@), seq![(n1@, v1@), (n2@, v2@)], 0),
{
    let args = [(n1, v1), (n2, v2)];
    assert(arg_views(args@) =~= seq![(n1@, v1@), (n2@, v2@)]);
    tr_args(catalogs, language, key, &args)
}

/// The prompt of a review, or the error for a blank custom one.
pub open spec fn prompt_of(c: Catalogs, language: Language, target: ReviewTarget, merge_base: Option<
    String,
>) -> Result<Seq<char>, Seq<char>> {
    match target {
        ReviewTarget::UncommittedChanges => Ok(translated(c, language, "review.prompt.uncommitted"@)),
        ReviewTarget::BaseBranch { branch } => Ok(
            match merge_base {
                Some(m) => interpolated(
                    translated(c, language, "review.prompt.base_branch"@),
                    seq![("baseBranch"@, branch@), ("mergeBaseSha"@, m@)],
                    0,
                ),
                None => interpolated(
                    translated(c, language, "review.prompt.base_branch_backup"@),
                    seq![("branch"@, branch@)],
                    0,
                ),
            },
        ),
        ReviewTarget::Commit { sha, title } => Ok(
            match title {
                Some(t) => interpolated(
                    translated(c, language, "review.prompt.commit_with_title"@),
                    seq![("sha"@, sha@), ("title"@, t@)],
                    0,
                ),
                None => interpolated(
                    translated(c, language, "review.prompt.commit"@),
                    seq![("sha"@, sha@)],
                    0,
                ),
            },
        ),
        ReviewTarget::Custom { instructions } => if trimmed(instructions@).len() == 0 {
            Err(translated(c, language, "review.error.empty_prompt"@))
        } else {
            Ok(trimmed(instructions@))
        },
    }
}

/// The hint shown to the user for a review target.
pub open spec fn hint_of(c: Catalogs, language: Language, target: ReviewTarget) -> Seq<char> {
    match target {
        ReviewTarget::UncommittedChanges => translated(c, language, "review.hint.uncommitted"@),
        ReviewTarget::BaseBranch { branch } => interpolated(
            translated(c, language, "review.hint.base_branch"@),
            seq![("branch"@, branch@)],
            0,
        ),
        ReviewTarget::Commit { sha, title } => match title {
            Some(t) => interpolated(
                translated(c, language, "review.hint.commit_with_title"@),
                seq![("sha"@, short_sha(sha@)), ("title"@, t@)],
                0,
            ),
            None => interpolated(
                translated(c, language, "review.hint.commit"@),
                seq![("sha"@, short_sha(sha@))],
                0,
            ),
        },
        ReviewTarget::Custom { instructions } => trimmed(instructions@),
    }
}

/// The prompt of a review. A base-branch review names the merge base where
/// one was found (`merge_base`), else only the branch. Custom instructions
/// are used trimmed and must not be blank.
pub fn review_prompt(
    catalogs: &Catalogs,
    language: Language,
    target: &ReviewTarget,
    merge_base: Option<String>,
) -> (r: Result<String, String>)
    ensures
        match prompt_of(*catalogs, language, *target, merge_base) {
            Ok(p) => r is Ok && r->Ok_0@ == p,
            Err(e) => r is Err && r->Err_0@ == e,
        },
{
    match target {
        ReviewTarget::UncommittedChanges => Ok(tr(catalogs, language, "review.prompt.uncommitted")),
        ReviewTarget::BaseBranch { branch } => match merge_base {
            Some(commit) => Ok(
                tr2(
                    catalogs,
                    language,
                    "review.prompt.base_branch",
                    "baseBranch",
                    branch.as_str(),
                    "mergeBaseSha",
                    commit.as_str(),
                ),
            ),
            None => Ok(
                tr1(catalogs, language, "review.prompt.base_branch_backup", "branch", branch.as_str()),
            ),
        },
        ReviewTarget::Commit { sha, title } => match title {
            Some(t) => Ok(
                tr2(
                    catalogs,
                    language,
                    "review.prompt.commit_with_title",
                    "sha",
                    sha.as_str(),
                    "title",
                    t.as_str(),
                ),
            ),
            None => Ok(tr1(catalogs, language, "review.prompt.commit", "sha", sha.as_str())),
        },
        ReviewTarget::Custom { instructions } => {
            let prompt = trim_text(instructions.as_str());
            if prompt.unicode_len() == 0 {
                return Err(tr(catalogs, language, "review.error.empty_prompt"));
            }
            Ok(prompt)
        },
    }
}

/// The first seven characters of a commit id.
pub open spec fn short_sha(sha: Seq<char>) -> Seq<char> {
    if sha.len() <= 7 {
        sha
    } else {
        sha.subrange(0, 7)
    }
}

/// The hint shown to the user for a review.
pub fn user_facing_hint(catalogs: &Catalogs, language: Language, target: &ReviewTarget) -> (r: String)
    ensures
        r@ == hint_of(*catalogs, language, *target),
{
    match target {
        ReviewTarget::UncommittedChanges => tr(catalogs, language, "review.hint.uncommitted"),
        ReviewTarget::BaseBranch { branch } => tr1(
            catalogs,
            language,
            "review.hint.base_branch",
            "branch",
            branch.as_str(),
        ),
        ReviewTarget::Commit { sha, title } => {
            let n = sha.as_str().unicode_len();
            let short = if n <= 7 {
                sha.as_str()
            } else {
                sha.as_str().substring_char(0, 7)
            };
            match title {
                Some(t) => tr2(
                    catalogs,
                    language,
                    "review.hint.commit_with_title",
                    "sha",
                    short,
                    "title",
                    t.as_str(),
                ),
                None => tr1(catalogs, language, "review.hint.commit", "sha", short),
            }
        },
        ReviewTarget::Custom { instructions } => trim_text(instructions.as_str()),
    }
}

/// Settles a review request: its prompt, and its own hint or the default
/// one for its target.
pub fn resolve_review_request(
    catalogs: &Catalogs,
    language: Language,
    request: ReviewRequest,
    merge_base: Option<String>,
) -> (r: Result<ResolvedReviewRequest, String>)
    ensures
        prompt_of(*catalogs, language, request.target, merge_base) is Ok <==> r is Ok,
        r is Err ==> r->Err_0@ == prompt_of(*catalogs, language, request.target, merge_base)->Err_0,
        r is Ok ==> r->Ok_0.target == request.target,
        r is Ok ==> r->Ok_0.prompt@ == prompt_of(*catalogs, language, request.target, merge_base)->Ok_0,
        r is Ok && request.user_facing_hint is Some ==> r->Ok_0.user_facing_hint
            == request.user_facing_hint->Some_0,
        r is Ok && request.user_facing_hint is None ==> r->Ok_0.user_facing_hint@ == hint_of(
            *catalogs,
            language,
            request.target,
        ),
{
    let prompt = review_prompt(catalogs, language, &request.target, merge_base)?;
    let hint = match request.user_facing_hint {
        Some(h) => h,
        None => user_facing_hint(catalogs, language, &request.target),
    };
    Ok(ResolvedReviewRequest { target: request.target, prompt, user_facing_hint: hint })
}

impl From<ResolvedReviewRequest> for ReviewRequest {
    fn from(resolved: ResolvedReviewRequest) -> (r: ReviewRequest) {
        ReviewRequest { target: resolved.target, user_facing_hint: Some(resolved.user_facing_hint) }
    }
}

impl vstd::std_specs::convert::FromSpecImpl<ResolvedReviewRequest> for ReviewRequest {
    open spec fn obeys_from_spec() -> bool {
        true
    }

    open spec fn from_spec(resolved: ResolvedReviewRequest) -> ReviewRequest {
        ReviewRequest { target: resolved.target, user_facing_hint: Some(resolved.user_facing_hint) }
    }
}

} // verus!
