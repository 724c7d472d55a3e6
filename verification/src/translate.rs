//! Locale-aware text resolution.
//!
//! A message key is looked up under the active locale first, then under the
//! fallback locale. A key that neither knows resolves to itself, so that a
//! missing translation shows up as visibly untranslated text and never as a
//! failure.

use vstd::prelude::*;
use vstd::string::*;
use crate::table::{template_of, Catalog, TranslationTable};
use crate::text::{fill_placeholder, substitute};

verus! {

/// Code of the locale that is active until another is set, and the locale
/// every lookup falls back to.
pub const FALLBACK_LOCALE: &'static str = "en";

/// Tooltip of the indicator while connected.
pub const KEY_TRAY_CONNECTED: &'static str = "tray.connected";

/// Tooltip of the indicator while disconnected.
pub const KEY_TRAY_DISCONNECTED: &'static str = "tray.disconnected";

/// Label of the menu item that shows the status window.
pub const KEY_TRAY_SHOW_STATUS: &'static str = "tray.showStatus";

/// Label of the menu item that quits.
pub const KEY_TRAY_QUIT: &'static str = "tray.quit";

/// Tooltip of the indicator before the first probe has succeeded.
pub const KEY_TRAY_INITIAL_TOOLTIP: &'static str = "tray.initialTooltip";

/// Title of every notification.
pub const KEY_NOTIFICATION_TITLE: &'static str = "notification.title";

/// Body of the notification on connecting; takes the country as its variable.
pub const KEY_NOTIFICATION_CONNECTED: &'static str = "notification.connected";

/// Body of the notification on disconnecting.
pub const KEY_NOTIFICATION_DISCONNECTED: &'static str = "notification.disconnected";

/// Start of the confirmation that [`set_language`] returns.
pub const LANGUAGE_SET_PREFIX: &'static str = "Language set to: ";

/// The active locale: a code such as `en` or `de`.
///
/// Any code is accepted. One that the table does not know simply makes every
/// lookup fall back.
pub struct Locale {
    code: String,
}

impl View for Locale {
    type V = Seq<char>;

    closed spec fn view(&self) -> Seq<char> {
        self.code@
    }
}

impl Locale {
    /// The locale with the given code.
    pub fn new(code: &str) -> (locale: Self)
        ensures
            locale@ == code@,
    {
        Locale { code: code.to_owned() }
    }

    /// The code of this locale.
    pub fn code(&self) -> (code: &str)
        ensures
            code@ == self@,
    {
        self.code.as_str()
    }
}

impl Default for Locale {
    /// The fallback locale.
    fn default() -> (locale: Self)
        ensures
            locale@ == FALLBACK_LOCALE@,
    {
        Locale::new(FALLBACK_LOCALE)
    }
}

impl Clone for Locale {
    fn clone(&self) -> (copy: Self)
        ensures
            copy@ == self@,
    {
        Locale { code: self.code.clone() }
    }
}

/// The text `key` resolves to under `locale`: the active locale's template,
/// else the fallback locale's, else the key itself.
pub open spec fn resolved(catalog: Catalog, locale: Seq<char>, key: Seq<char>) -> Seq<char> {
    match template_of(catalog, locale, key) {
        Some(template) => template,
        None => match template_of(catalog, FALLBACK_LOCALE@, key) {
            Some(template) => template,
            None => key,
        },
    }
}

/// A locale that has no template for a key resolves it as the fallback
/// locale does. This covers a locale that lacks just this key.
pub proof fn law_missing_template_falls_back(catalog: Catalog, locale: Seq<char>, key: Seq<char>)
    requires
        template_of(catalog, locale, key) is None,
    ensures
        resolved(catalog, locale, key) == resolved(catalog, FALLBACK_LOCALE@, key),
{
}

/// A locale that the table does not hold at all resolves every key as the
/// fallback locale does.
pub proof fn law_absent_locale_falls_back(catalog: Catalog, locale: Seq<char>, key: Seq<char>)
    requires
        !catalog.contains_key(locale),
    ensures
        resolved(catalog, locale, key) == resolved(catalog, FALLBACK_LOCALE@, key),
{
}

/// The fallback locale resolves a key it holds to its own template, and so
/// does every locale that falls back to it.
pub proof fn law_fallback_text(catalog: Catalog, locale: Seq<char>, key: Seq<char>)
    requires
        template_of(catalog, locale, key) is None,
        template_of(catalog, FALLBACK_LOCALE@, key) is Some,
    ensures
        resolved(catalog, locale, key) == catalog[FALLBACK_LOCALE@][key],
{
}

/// A key that neither the active nor the fallback locale holds resolves to
/// itself.
pub proof fn law_unknown_key_resolves_to_itself(catalog: Catalog, locale: Seq<char>, key: Seq<char>)
    requires
        template_of(catalog, locale, key) is None,
        template_of(catalog, FALLBACK_LOCALE@, key) is None,
    ensures
        resolved(catalog, locale, key) == key,
{
}

/// Resolves `key` to user-facing text under the active locale `language`.
///
/// Never fails: a key unknown to both the active and the fallback locale comes
/// back as it was given.
pub fn get_translation(translations: &TranslationTable, language: &Locale, key: &str) -> (text:
    String)
    ensures
        text@ == resolved(translations@, language@, key@),
{
    match translations.get(language.code(), key) {
        Some(template) => template.clone(),
        None => match translations.get(FALLBACK_LOCALE, key) {
            Some(template) => template.clone(),
            None => key.to_owned(),
        },
    }
}

/// Resolves `key` and puts `value` in the place of the template's leftmost
/// `{}`.
///
/// A resolved text without a marker is returned as it is.
pub fn get_translation_fmt(
    translations: &TranslationTable,
    language: &Locale,
    key: &str,
    value: &str,
) -> (text: String)
    ensures
        text@ == fill_placeholder(resolved(translations@, language@, key@), value@),
{
    let template = get_translation(translations, language, key);
    substitute(template.as_str(), value)
}

/// Makes `language` the active locale and returns a confirmation that names
/// it.
///
/// Always succeeds; the new locale is in effect for the next resolution.
pub fn set_language(current: &mut Locale, language: String) -> (confirmation: Result<
    String,
    String,
>)
    ensures
        final(current)@ == language@,
        confirmation matches Ok(text) && text@ == LANGUAGE_SET_PREFIX@ + language@,
{
    let mut text = String::from_str(LANGUAGE_SET_PREFIX);
    text.append(language.as_str());
    current.code = language;
    Ok(text)
}

} // verus!
