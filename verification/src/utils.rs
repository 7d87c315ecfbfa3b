//! Names and numbers as users type them.

use vstd::prelude::*;
use crate::error::PokeCliError;

verus! {

/// The lowercase form that std gives a text (Unicode's, which may change
/// the number of characters).
pub uninterp spec fn lowercase(text: Seq<char>) -> Seq<char>;

/// Whether the character is white space: the characters to which Unicode
/// gives `White_Space`, by which std trims.
pub open spec fn is_whitespace(c: char) -> bool {
    ||| '\u{9}' <= c <= '\u{d}'
    ||| c == ' '
    ||| c == '\u{85}'
    ||| c == '\u{a0}'
    ||| c == '\u{1680}'
    ||| '\u{2000}' <= c <= '\u{200a}'
    ||| c == '\u{2028}'
    ||| c == '\u{2029}'
    ||| c == '\u{202f}'
    ||| c == '\u{205f}'
    ||| c == '\u{3000}'
}

/// The text without the white space at its two ends.
pub open spec fn trimmed(text: Seq<char>) -> Seq<char>
    decreases text.len(),
{
    if text.len() > 0 && is_whitespace(text.first()) {
        trimmed(text.drop_first())
    } else if text.len() > 0 && is_whitespace(text.last()) {
        trimmed(text.drop_last())
    } else {
        text
    }
}

/// The form under which a name is looked up: lowercase, without white
/// space at its ends.
pub open spec fn normalized(name: Seq<char>) -> Seq<char> {
    trimmed(lowercase(name))
}

/// A decimal digit of ASCII.
pub open spec fn is_ascii_digit(c: char) -> bool {
    '0' <= c <= '9'
}

/// Calls `str::to_lowercase`.
#[verifier::external_body]
fn str_to_lowercase(text: &str) -> (lower: String)
    ensures
        lower@ == lowercase(text@),
{
    text.to_lowercase()
}

/// Calls `str::trim`, which returns the slice between the leading and the
/// trailing white space.
#[verifier::external_body]
fn str_trim(text: &str) -> (inner: &str)
    ensures
        inner@ == trimmed(text@),
{
    text.trim()
}

/// The form under which `name` is looked up.
pub fn normalize_pokemon_name(name: &str) -> (normal: String)
    ensures
        normal@ == normalized(name@),
{
    let lower = str_to_lowercase(name);
    str_trim(lower.as_str()).to_owned()
}

/// Whether `input` consists of decimal digits only. The empty text does.
pub fn is_numeric_id(input: &str) -> (numeric: bool)
    ensures
        numeric == forall|i: int| 0 <= i < input@.len() ==> is_ascii_digit(#[trigger] input@[i]),
{
    for c in walk: input.chars()
        invariant
            walk.seq() == input@,
            forall|i: int| 0 <= i < walk.index() ==> is_ascii_digit(#[trigger] input@[i]),
    {
        if !('0' <= c && c <= '9') {
            assert(!is_ascii_digit(input@[walk.index() as int]));
            return false;
        }
    }
    true
}

/// Checks what a user typed as a name or number. Text that is empty once
/// trimmed is rejected, with the text as it was typed; any other text is
/// accepted in its normal form.
pub fn validate_pokemon_input(input: &str) -> (checked: Result<String, PokeCliError>)
    ensures
        match checked {
            Ok(name) => trimmed(input@).len() > 0 && name@ == normalized(trimmed(input@)),
            Err(error) => trimmed(input@).len() == 0 && error.is_invalid_input(input@),
        },
{
    let inner = str_trim(input);
    if inner.is_empty() {
        return Err(PokeCliError::InvalidInput { input: input.to_owned() });
    }
    Ok(normalize_pokemon_name(inner))
}

} // verus!
