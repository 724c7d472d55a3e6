//! Placeholder substitution in message templates.
//!
//! A template marks the place of its one variable with the two characters
//! `{}`. Filling a template replaces the leftmost such marker and leaves the
//! rest of the text, later markers included, as it is.

use vstd::prelude::*;
use vstd::string::*;

verus! {

/// The marker `{}` stands at position `i` of `template`.
pub open spec fn placeholder_at(template: Seq<char>, i: int) -> bool {
    &&& 0 <= i
    &&& i + 1 < template.len()
    &&& template[i] == '{'
    &&& template[i + 1] == '}'
}

/// `template` holds at least one marker.
pub open spec fn has_placeholder(template: Seq<char>) -> bool {
    exists|i: int| placeholder_at(template, i)
}

/// `i` is the position of the leftmost marker of `template`.
pub open spec fn is_first_placeholder(template: Seq<char>, i: int) -> bool {
    &&& placeholder_at(template, i)
    &&& forall|j: int| 0 <= j < i ==> !placeholder_at(template, j)
}

/// Position of the leftmost marker; meaningful only if there is one.
pub open spec fn first_placeholder(template: Seq<char>) -> int {
    choose|i: int| is_first_placeholder(template, i)
}

/// `template` with its leftmost marker replaced by `value`, or `template`
/// itself if it holds no marker.
pub open spec fn fill_placeholder(template: Seq<char>, value: Seq<char>) -> Seq<char> {
    if has_placeholder(template) {
        let i = first_placeholder(template);
        template.subrange(0, i) + value + template.subrange(i + 2, template.len() as int)
    } else {
        template
    }
}

/// The leftmost marker is unique: any position that qualifies is the one
/// `first_placeholder` names.
pub proof fn lemma_first_placeholder_unique(template: Seq<char>, i: int)
    requires
        is_first_placeholder(template, i),
    ensures
        has_placeholder(template),
        first_placeholder(template) == i,
{
    let k = first_placeholder(template);
    assert(is_first_placeholder(template, k));
    if k < i {
        assert(!placeholder_at(template, k));
    }
    if i < k {
        assert(!placeholder_at(template, i));
    }
}

/// Filling replaces exactly one marker, the leftmost: whatever stands before
/// it and after it is kept, further markers included.
pub proof fn law_fill_replaces_leftmost_only(prefix: Seq<char>, rest: Seq<char>, value: Seq<char>)
    requires
        !has_placeholder(prefix),
    ensures
        fill_placeholder(prefix + seq!['{', '}'] + rest, value) == prefix + value + rest,
{
    let template = prefix + seq!['{', '}'] + rest;
    let at = prefix.len() as int;
    assert(placeholder_at(template, at));
    assert forall|j: int| 0 <= j < at implies !placeholder_at(template, j) by {
        if j + 1 < at {
            assert(!placeholder_at(prefix, j));
        }
    }
    lemma_first_placeholder_unique(template, at);
    assert(template.subrange(0, at) =~= prefix);
    assert(template.subrange(at + 2, template.len() as int) =~= rest);
}

/// A text without a marker is its own filling, whatever the value.
pub proof fn law_fill_without_placeholder(template: Seq<char>, value: Seq<char>)
    requires
        !has_placeholder(template),
    ensures
        fill_placeholder(template, value) == template,
{
}

/// Whether two texts are the same, character by character.
pub fn same_text(a: &str, b: &str) -> (same: bool)
    ensures
        same == (a@ == b@),
{
    a.to_owned() == b.to_owned()
}

/// Finds the leftmost marker of `template`, as a character position.
pub fn find_placeholder(template: &str) -> (found: Option<usize>)
    ensures
        found is Some <==> has_placeholder(template@),
        found matches Some(i) ==> is_first_placeholder(template@, i as int) && i as int
            == first_placeholder(template@),
{
    let len: usize = template.unicode_len();
    let mut i: usize = 0;
    while i < len && len - i >= 2
        invariant
            len == template@.len(),
            i <= len,
            forall|j: int| 0 <= j < i ==> !placeholder_at(template@, j),
        decreases len - i,
    {
        if template.get_char(i) == '{' && template.get_char(i + 1) == '}' {
            proof {
                lemma_first_placeholder_unique(template@, i as int);
            }
            return Some(i);
        }
        i = i + 1;
    }
    assert forall|j: int| !placeholder_at(template@, j) by {
        if 0 <= j < i {
            assert(!placeholder_at(template@, j));
        }
    }
    None
}

/// Replaces the leftmost `{}` of `template` by `value`.
///
/// A template without a marker comes back unchanged, and so does everything
/// after the first marker: a second `{}` stays in the text.
pub fn substitute(template: &str, value: &str) -> (filled: String)
    ensures
        filled@ == fill_placeholder(template@, value@),
{
    match find_placeholder(template) {
        Some(i) => {
            let len: usize = template.unicode_len();
            let mut filled = String::from_str(template.substring_char(0, i));
            filled.append(value);
            filled.append(template.substring_char(i + 2, len));
            filled
        },
        None => String::from_str(template),
    }
}

} // verus!
