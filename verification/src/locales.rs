use vstd::prelude::*;
use vstd::string::StringExecFns;

use crate::text::eq_str;

verus! {

/// The interface texts of the IME, by `locale.key`.
pub open spec fn spec_lookup(key: Seq<char>) -> Option<Seq<char>> {
    if key == "en.continuous"@ {
        Some("Continuous Mode"@)
    } else if key == "en.basic"@ {
        Some("Basic Mode"@)
    } else if key == "en.manual"@ {
        Some("Continuous Mode"@)
    } else if key == "en.direct"@ {
        Some("Alphanumeric (Direct input)"@)
    } else if key == "en.settings"@ {
        Some("Khíín Settings"@)
    } else if key == "oan-hanl.continuous"@ {
        Some("連續打字"@)
    } else if key == "oan-hanl.basic"@ {
        Some("隋个隋个打"@)
    } else if key == "oan-hanl.manual"@ {
        Some("加忌打"@)
    } else if key == "oan-hanl.direct"@ {
        Some("干焦打 ABC"@)
    } else if key == "oan-hanl.settings"@ {
        Some("起引打字法設置"@)
    } else {
        None
    }
}

fn lookup(key: &str) -> (r: Option<&'static str>)
    ensures
        match r {
            Some(v) => spec_lookup(key@) == Some(v@),
            None => spec_lookup(key@) is None,
        },
{
    if eq_str(key, "en.continuous") {
        Some("Continuous Mode")
    } else if eq_str(key, "en.basic") {
        Some("Basic Mode")
    } else if eq_str(key, "en.manual") {
        Some("Continuous Mode")
    } else if eq_str(key, "en.direct") {
        Some("Alphanumeric (Direct input)")
    } else if eq_str(key, "en.settings") {
        Some("Khíín Settings")
    } else if eq_str(key, "oan-hanl.continuous") {
        Some("連續打字")
    } else if eq_str(key, "oan-hanl.basic") {
        Some("隋个隋个打")
    } else if eq_str(key, "oan-hanl.manual") {
        Some("加忌打")
    } else if eq_str(key, "oan-hanl.direct") {
        Some("干焦打 ABC")
    } else if eq_str(key, "oan-hanl.settings") {
        Some("起引打字法設置")
    } else {
        None
    }
}

/// The key under which a text is filed: the locale, a dot, and the key.
pub open spec fn translation_key(locale: Seq<char>, key: Seq<char>) -> Seq<char> {
    locale + seq!['.'] + key
}

/// The text for `key` in `locale`, or the full key itself when there is none.
pub open spec fn spec_translate(locale: Seq<char>, key: Seq<char>) -> Seq<char> {
    match spec_lookup(translation_key(locale, key)) {
        Some(v) => v,
        None => translation_key(locale, key),
    }
}

/// Gets the interface text for `key` in `locale`; a missing text gives back
/// `locale.key`.
pub fn translate(locale: &str, key: &str) -> (r: String)
    ensures
        r@ == spec_translate(locale@, key@),
{
    let mut full = String::from_str(locale);
    proof {
        reveal_strlit(".");
    }
    full.append(".");
    full.append(key);
    assert(full@ =~= translation_key(locale@, key@));
    match lookup(full.as_str()) {
        Some(value) => String::from_str(value),
        None => full,
    }
}

/// The locale the IME starts in.
pub fn default_locale() -> (r: String)
    ensures
        r@ == "en"@,
{
    String::from_str("en")
}

/// Makes `locale` the current locale.
pub fn set_locale(current: &mut String, locale: &str)
    ensures
        final(current)@ == locale@,
{
    *current = String::from_str(locale);
}

/// Gets the interface text for `key` in the current locale.
pub fn t(current: &String, key: &str) -> (r: String)
    ensures
        r@ == spec_translate(current@, key@),
{
    translate(current.as_str(), key)
}

} // verus!
