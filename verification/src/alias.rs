//! Shell aliases and whether Warp expands them as the user types.
use vstd::prelude::*;

use smol_str::SmolStr;

use crate::text::{chars_equal, chars_of, first_word_split, first_word_split_chars};

verus! {

#[verifier::external_type_specification]
#[verifier::external_body]
pub struct ExSmolStr(SmolStr);

/// An aliased command: the alias and the value it stands for.
#[derive(Debug)]
pub struct AliasedCommand {
    /// The alias itself.
    pub alias: SmolStr,
    /// The value the alias is mapped to.
    pub alias_value: String,
}

/// Whether Warp expands `alias` as the user types, given its value: only when the value's
/// first word is not the alias itself (the shell would expand it a second time), and never
/// for an empty value.
pub open spec fn expandable(alias: Seq<char>, value: Seq<char>) -> bool {
    match first_word_split(value) {
        Some((word, _)) => word != alias,
        None => false,
    }
}

pub fn is_expandable_alias(alias: &str, alias_value: &str) -> (r: bool)
    ensures
        r == expandable(alias@, alias_value@),
{
    let v = chars_of(alias_value);
    match first_word_split_chars(&v) {
        Some((word, _)) => !chars_equal(&word, &chars_of(alias)),
        None => false,
    }
}

/// An alias is expanded exactly when its value's first word, after any leading
/// whitespace, is a word other than the alias; a value of only whitespace is never
/// expanded.
pub proof fn law_expandable_alias(alias: Seq<char>, sp: Seq<char>, word: Seq<char>, rest: Seq<char>)
    ensures
        crate::text::all_space(sp) && word.len() > 0 && crate::text::no_space(word) && (rest.len()
            == 0 || crate::text::is_space(rest[0])) ==> (expandable(alias, sp + word + rest)
            <==> word != alias),
        crate::text::all_space(sp) ==> !expandable(alias, sp),
{
    if crate::text::all_space(sp) && word.len() > 0 && crate::text::no_space(word) && (rest.len()
        == 0 || crate::text::is_space(rest[0])) {
        crate::text::law_first_word_split(sp, word, rest);
    }
    if crate::text::all_space(sp) {
        crate::text::lemma_skip_spaces_bounds(sp, 0);
        if crate::text::skip_spaces(sp, 0) < sp.len() {
            assert(crate::text::is_space(sp[crate::text::skip_spaces(sp, 0)]));
        }
    }
}

} // verus!
