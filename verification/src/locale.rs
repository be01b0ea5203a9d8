//! The choice of the interface language from the `LANG` variable and the
//! system locale.
use vstd::prelude::*;

use language_tags::LanguageTag;

verus! {

/// The primary language subtag of the BCP 47 language tag written by the
/// text, or `None` when `LanguageTag::from_str` refuses the text.
pub uninterp spec fn language_tag_primary(tag: Seq<char>) -> Option<Seq<char>>;

/// Parses a language tag with `LanguageTag::from_str` (language_tags) and
/// takes its `primary_language`. The contract names the outcome
/// `language_tag_primary` of the text; the grammar of language tags is left
/// unstated.
#[verifier::external_body]
fn primary_language(tag: &str) -> (r: Option<String>)
    ensures
        match r {
            Some(p) => language_tag_primary(tag@) == Some(p@),
            None => language_tag_primary(tag@) is None,
        },
{
    match <LanguageTag as std::str::FromStr>::from_str(tag) {
        Ok(parsed) => Some(parsed.primary_language().to_owned()),
        Err(_) => None,
    }
}

/// The language used when neither source names one.
pub open spec fn default_language() -> Seq<char> {
    "en"@
}

/// The primary language from `LANG` if it parses, else the one from the
/// system locale if it parses, else English.
pub open spec fn spec_choose_language(
    env_primary: Option<Seq<char>>,
    sys_primary: Option<Seq<char>>,
) -> Seq<char> {
    match env_primary {
        Some(p) => p,
        None => match sys_primary {
            Some(p) => p,
            None => default_language(),
        },
    }
}

/// When `LANG` names a language it is chosen, whatever the system locale;
/// otherwise the system locale's language is chosen if there is one, and
/// English if there is none.
pub proof fn lemma_language_priority(env: Option<Seq<char>>, sys: Option<Seq<char>>)
    ensures
        env matches Some(p) ==> spec_choose_language(env, sys) == p,
        env is None ==> (sys matches Some(q) ==> spec_choose_language(env, sys) == q),
        env is None && sys is None ==> spec_choose_language(env, sys) == "en"@,
{
}

/// The language chosen from `LANG` and the system locale: a `LANG` that is a
/// well-formed tag decides, whatever the system locale is.
pub proof fn lemma_resolve_prefers_lang(env_lang: Seq<char>, sys_locale: Option<Seq<char>>)
    requires
        language_tag_primary(env_lang) is Some,
    ensures
        spec_choose_language(
            language_tag_primary(env_lang),
            match sys_locale {
                Some(t) => language_tag_primary(t),
                None => None,
            },
        ) == language_tag_primary(env_lang)->0,
{
}

/// Chooses the interface language from the primary languages of the two
/// sources (see [`spec_choose_language`]).
pub fn choose_language(env_primary: Option<String>, sys_primary: Option<String>) -> (r: String)
    ensures
        env_primary matches Some(p) ==> r@ == p@,
        env_primary is None ==> (sys_primary matches Some(q) ==> r@ == q@),
        env_primary is None && sys_primary is None ==> r@ == "en"@,
        r@ == spec_choose_language(
            match env_primary {
                Some(p) => Some(p@),
                None => None,
            },
            match sys_primary {
                Some(p) => Some(p@),
                None => None,
            },
        ),
{
    match env_primary {
        Some(p) => p,
        None => match sys_primary {
            Some(p) => p,
            None => String::from_str("en"),
        },
    }
}

/// The interface language for the value of `LANG` and the system locale,
/// each absent when it could not be read: the primary language of the first
/// of them that is a well-formed language tag, or English.
pub fn resolve_language(env_lang: Option<&str>, sys_locale: Option<&str>) -> (r: String)
    ensures
        r@ == spec_choose_language(
            match env_lang {
                Some(t) => language_tag_primary(t@),
                None => None,
            },
            match sys_locale {
                Some(t) => language_tag_primary(t@),
                None => None,
            },
        ),
{
    let env_primary = match env_lang {
        Some(t) => primary_language(t),
        None => None,
    };
    let sys_primary = match sys_locale {
        Some(t) => primary_language(t),
        None => None,
    };
    choose_language(env_primary, sys_primary)
}

} // verus!
