//! How the user is pointed to a newer release.

use vstd::prelude::*;
use crate::text::text_of;

verus! {

/// The update action: always opening the releases page.
#[derive(Debug, Clone, Copy, PartialEq, Eq, Structural)]
pub enum UpdateAction {
    OpenReleasePage,
}

pub const RELEASE_PAGE_URL: &'static str = "https://github.com/yuemingruoan/better-chinese-codex/releases";

impl UpdateAction {
    /// The page the action opens.
    pub fn release_url(self) -> (r: String)
        ensures
            r@ == "https://github.com/yuemingruoan/better-chinese-codex/releases"@,
    {
        text_of("https://github.com/yuemingruoan/better-chinese-codex/releases")
    }
}

/// The update action offered to the user.
pub fn get_update_action() -> (r: Option<UpdateAction>)
    ensures
        r == Some(UpdateAction::OpenReleasePage),
{
    Some(UpdateAction::OpenReleasePage)
}

} // verus!
