//! The translation table: for each locale code, the templates of its message
//! keys.
//!
//! The table is filled once and then only read. It keeps its entries in the
//! order they were inserted; a later entry for the same locale and key
//! replaces an earlier one, as an insertion into a map would.

use vstd::prelude::*;

verus! {

/// Templates of one locale, by message key.
pub type Messages = Map<Seq<char>, Seq<char>>;

/// Mathematical content of a [`TranslationTable`]: locale code to messages.
pub type Catalog = Map<Seq<char>, Messages>;

/// One template of one locale.
pub struct Entry {
    pub locale: String,
    pub key: String,
    pub template: String,
}

/// The messages `catalog` holds for `locale`; none if the locale is absent.
pub open spec fn messages_of(catalog: Catalog, locale: Seq<char>) -> Messages {
    if catalog.contains_key(locale) {
        catalog[locale]
    } else {
        Map::empty()
    }
}

/// `catalog` with the template of `key` under `locale` set to `template`.
pub open spec fn with_template(
    catalog: Catalog,
    locale: Seq<char>,
    key: Seq<char>,
    template: Seq<char>,
) -> Catalog {
    catalog.insert(locale, messages_of(catalog, locale).insert(key, template))
}

/// The template `catalog` holds for `key` under `locale`, if any.
pub open spec fn template_of(catalog: Catalog, locale: Seq<char>, key: Seq<char>) -> Option<
    Seq<char>,
> {
    if catalog.contains_key(locale) && catalog[locale].contains_key(key) {
        Some(catalog[locale][key])
    } else {
        None
    }
}

/// The catalog that inserting `entries` one after another builds.
pub open spec fn catalog_of(entries: Seq<Entry>) -> Catalog
    decreases entries.len(),
{
    if entries.len() == 0 {
        Map::empty()
    } else {
        let last = entries.last();
        with_template(catalog_of(entries.drop_last()), last.locale@, last.key@, last.template@)
    }
}

/// `entries[i]` is for `locale` and `key`.
pub open spec fn entry_matches(entries: Seq<Entry>, i: int, locale: Seq<char>, key: Seq<char>) -> bool {
    &&& 0 <= i < entries.len()
    &&& entries[i].locale@ == locale
    &&& entries[i].key@ == key
}

/// If no entry from position `from` on is for `locale` and `key`, the catalog
/// answers for them as the catalog of the first `from` entries does.
proof fn lemma_unmatched_suffix(entries: Seq<Entry>, from: int, locale: Seq<char>, key: Seq<char>)
    requires
        0 <= from <= entries.len(),
        forall|j: int| from <= j < entries.len() ==> !entry_matches(entries, j, locale, key),
    ensures
        template_of(catalog_of(entries), locale, key) == template_of(
            catalog_of(entries.take(from)),
            locale,
            key,
        ),
    decreases entries.len() - from,
{
    if from == entries.len() {
        assert(entries.take(from) =~= entries);
    } else {
        let shorter = entries.drop_last();
        assert(!entry_matches(entries, entries.len() - 1, locale, key));
        assert forall|j: int| from <= j < shorter.len() implies !entry_matches(
            shorter,
            j,
            locale,
            key,
        ) by {
            assert(!entry_matches(entries, j, locale, key));
        }
        lemma_unmatched_suffix(shorter, from, locale, key);
        assert(shorter.take(from) =~= entries.take(from));
    }
}

/// The last entry for `locale` and `key` is the one the catalog answers with.
proof fn lemma_last_match(entries: Seq<Entry>, i: int, locale: Seq<char>, key: Seq<char>)
    requires
        entry_matches(entries, i, locale, key),
        forall|j: int| i < j < entries.len() ==> !entry_matches(entries, j, locale, key),
    ensures
        template_of(catalog_of(entries), locale, key) == Some(entries[i].template@),
{
    lemma_unmatched_suffix(entries, i + 1, locale, key);
    let upto = entries.take(i + 1);
    assert(upto.last() == entries[i]);
    assert(upto.len() > 0);
}

/// Without an entry for `locale` and `key` the catalog has no answer.
proof fn lemma_no_match(entries: Seq<Entry>, locale: Seq<char>, key: Seq<char>)
    requires
        forall|j: int| 0 <= j < entries.len() ==> !entry_matches(entries, j, locale, key),
    ensures
        template_of(catalog_of(entries), locale, key) is None,
{
    lemma_unmatched_suffix(entries, 0, locale, key);
    assert(entries.take(0).len() == 0);
}

/// Immutable lookup table from locale code and message key to template.
pub struct TranslationTable {
    entries: Vec<Entry>,
}

impl View for TranslationTable {
    type V = Catalog;

    closed spec fn view(&self) -> Catalog {
        catalog_of(self.entries@)
    }
}

impl TranslationTable {
    /// A table without any locale.
    pub fn new() -> (table: Self)
        ensures
            table@ == Map::<Seq<char>, Messages>::empty(),
    {
        TranslationTable { entries: Vec::new() }
    }

    /// Sets the template of `key` under `locale`, adding the locale if it is
    /// new and replacing the template if the key already had one.
    pub fn insert(&mut self, locale: &str, key: &str, template: &str)
        ensures
            final(self)@ == with_template(old(self)@, locale@, key@, template@),
    {
        let entry = Entry {
            locale: locale.to_owned(),
            key: key.to_owned(),
            template: template.to_owned(),
        };
        self.entries.push(entry);
        assert(self.entries@.drop_last() =~= old(self).entries@);
    }

    /// The template stored for `key` under `locale`.
    ///
    /// `None` if the table lacks the locale, or the locale lacks the key.
    pub fn get(&self, locale: &str, key: &str) -> (found: Option<&String>)
        ensures
            found is Some <==> template_of(self@, locale@, key@) is Some,
            found matches Some(t) ==> template_of(self@, locale@, key@) == Some(t@),
    {
        let wanted_locale = locale.to_owned();
        let wanted_key = key.to_owned();
        let mut i: usize = self.entries.len();
        while i > 0
            invariant
                i <= self.entries@.len(),
                wanted_locale@ == locale@,
                wanted_key@ == key@,
                forall|j: int|
                    i <= j < self.entries@.len() ==> !entry_matches(self.entries@, j, locale@, key@),
            decreases i,
        {
            i = i - 1;
            let entry = &self.entries[i];
            if entry.locale == wanted_locale && entry.key == wanted_key {
                proof {
                    lemma_last_match(self.entries@, i as int, locale@, key@);
                }
                return Some(&entry.template);
            }
        }
        proof {
            lemma_no_match(self.entries@, locale@, key@);
        }
        None
    }
}

} // verus!
