//! Identifiers, as the token parser reads them.

use vstd::prelude::*;

verus! {

/// A character that opens a group of tokens.
pub open spec fn opens_group(c: char) -> bool {
    c == '(' || c == '[' || c == '{'
}

/// No character of `text` opens a group of tokens.
pub open spec fn free_of_groups(text: Seq<char>) -> bool {
    forall|i: int| 0 <= i < text.len() ==> !opens_group(#[trigger] text[i])
}

/// Tells whether no character of `text` opens a group of tokens.
pub fn is_free_of_groups(text: &str) -> (free: bool)
    ensures
        free == free_of_groups(text@),
{
    let len = text.unicode_len();
    let mut at: usize = 0;
    while at < len
        invariant
            len == text@.len(),
            at <= len,
            forall|i: int| 0 <= i < at ==> !opens_group(#[trigger] text@[i]),
        decreases len - at,
    {
        let c = text.get_char(at);
        if c == '(' || c == '[' || c == '{' {
            return false;
        }
        at = at + 1;
    }
    true
}

/// Calls `syn::parse_str::<syn::Ident>`, which lexes `text` and asks for
/// exactly one identifier that is no keyword, and hands back that
/// identifier as text, or `None` where the call failed.
///
/// Nothing is claimed of the answer: the lexer at work is the compiler's
/// inside a macro and the token library's own outside one. The parser nests
/// its buffer as deep as the groups of the text nest, so a text that opens
/// a group is kept from it.
#[verifier::external_body]
pub(crate) fn parse_identifier(text: &str) -> (identifier: Option<String>)
    requires
        free_of_groups(text@),
{
    match syn::parse_str::<syn::Ident>(text) {
        Ok(identifier) => Some(identifier.to_string()),
        Err(_) => None,
    }
}

/// A parser's answer by its mathematical value.
pub open spec fn answer_view(parsed: Option<String>) -> Option<Seq<char>> {
    match parsed {
        Some(identifier) => Some(identifier@),
        None => None,
    }
}

/// Asks the parser for the identifier in `text`. A text that opens a group
/// of tokens is not handed to it and has none.
pub fn parsed_identifier(text: &str) -> (parsed: Option<String>)
    ensures
        !free_of_groups(text@) ==> parsed is None,
{
    if is_free_of_groups(text) {
        parse_identifier(text)
    } else {
        None
    }
}

/// Tells whether the parser found an identifier, and one that is spelled
/// exactly as `text`. White space or a comment beside an identifier makes
/// the two differ, though the parser passes over both.
pub fn is_spelled_as(text: &str, parsed: &Option<String>) -> (ok: bool)
    ensures
        ok == (parsed matches Some(identifier) && identifier@ == text@),
{
    match parsed {
        Some(identifier) => {
            let given = text.to_owned();
            *identifier == given
        },
        None => false,
    }
}

/// Tells whether `text` is an identifier as it stands: the parser is asked,
/// and its answer is held against the text by [`is_spelled_as`].
pub fn is_identifier_text(text: &str) -> (ok: bool)
    ensures
        ok ==> free_of_groups(text@),
{
    let parsed = parsed_identifier(text);
    is_spelled_as(text, &parsed)
}

/// The text begins with the mark of a raw identifier.
pub open spec fn is_raw(name: Seq<char>) -> bool {
    name.len() >= 2 && name[0] == 'r' && name[1] == '#'
}

/// An identifier without the mark of a raw identifier, as it stands inside
/// a longer name.
pub open spec fn unraw_text(name: Seq<char>) -> Seq<char> {
    if is_raw(name) {
        name.subrange(2, name.len() as int)
    } else {
        name
    }
}

/// Takes the mark of a raw identifier off `name`, where it has one.
pub fn unraw(name: &str) -> (bare: &str)
    ensures
        bare@ == unraw_text(name@),
{
    let len = name.unicode_len();
    if len >= 2 && name.get_char(0) == 'r' && name.get_char(1) == '#' {
        name.substring_char(2, len)
    } else {
        name
    }
}

} // verus!
