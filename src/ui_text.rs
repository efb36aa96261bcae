//! Fixed user-interface texts written in both languages at the call site.

use vstd::prelude::*;
use crate::config_types::Language;
use crate::text::text_of;

verus! {

/// Rows a popup shows at most.
pub const MAX_POPUP_ROWS: usize = 8;

/// The text for the language: `zh` for simplified Chinese, `en` for English.
pub fn tr(language: Language, zh: &str, en: &str) -> (r: String)
    ensures
        language == Language::ZhCn ==> r@ == zh@,
        language == Language::En ==> r@ == en@,
{
    match language {
        Language::ZhCn => text_of(zh),
        Language::En => text_of(en),
    }
}

/// The name of language `target`, written in language `ui_language`.
pub fn language_name(ui_language: Language, target: Language) -> (r: String)
    ensures
        ui_language == Language::ZhCn && target == Language::En ==> r@ == "英文"@,
        ui_language == Language::En && target == Language::En ==> r@ == "English"@,
        ui_language == Language::ZhCn && target == Language::ZhCn ==> r@ == "简体中文"@,
        ui_language == Language::En && target == Language::ZhCn ==> r@ == "Simplified Chinese"@,
{
    match (ui_language, target) {
        (Language::ZhCn, Language::En) => text_of("英文"),
        (Language::En, Language::En) => text_of("English"),
        (Language::ZhCn, Language::ZhCn) => text_of("简体中文"),
        (Language::En, Language::ZhCn) => text_of("Simplified Chinese"),
    }
}

} // verus!
