//! Small pieces of text: numbers in decimal, capitals, lists with a
//! separator.

use vstd::prelude::*;
use vstd::string::StringExecFns;

verus! {

/// The uppercase form that std gives a text (Unicode's, which may change
/// the number of characters).
pub uninterp spec fn uppercase(text: Seq<char>) -> Seq<char>;

/// The character that stands for a digit below ten.
pub open spec fn digit_char(digit: nat) -> char {
    seq!['0', '1', '2', '3', '4', '5', '6', '7', '8', '9'][digit as int]
}

/// A number in decimal, without sign or leading zero.
pub open spec fn decimal(number: nat) -> Seq<char>
    decreases number,
{
    if number < 10 {
        seq![digit_char(number)]
    } else {
        decimal(number / 10).push(digit_char(number % 10))
    }
}

/// The texts in a row, with `separator` between each two.
pub open spec fn joined(parts: Seq<Seq<char>>, separator: Seq<char>) -> Seq<char>
    decreases parts.len(),
{
    if parts.len() == 0 {
        Seq::empty()
    } else if parts.len() == 1 {
        parts[0]
    } else {
        joined(parts.drop_last(), separator) + separator + parts.last()
    }
}

/// Calls `str::to_uppercase`.
#[verifier::external_body]
pub(crate) fn str_to_uppercase(text: &str) -> (upper: String)
    ensures
        upper@ == uppercase(text@),
{
    text.to_uppercase()
}

/// The text of one digit.
fn digit_text(digit: u32) -> (text: &'static str)
    requires
        digit < 10,
    ensures
        text@ == seq![digit_char(digit as nat)],
{
    proof {
        reveal_strlit("0");
        reveal_strlit("1");
        reveal_strlit("2");
        reveal_strlit("3");
        reveal_strlit("4");
        reveal_strlit("5");
        reveal_strlit("6");
        reveal_strlit("7");
        reveal_strlit("8");
        reveal_strlit("9");
    }
    let text = match digit {
        0 => "0",
        1 => "1",
        2 => "2",
        3 => "3",
        4 => "4",
        5 => "5",
        6 => "6",
        7 => "7",
        8 => "8",
        _ => "9",
    };
    assert(text@ =~= seq![digit_char(digit as nat)]);
    text
}

/// The number in decimal.
pub(crate) fn u32_to_string(number: u32) -> (text: String)
    ensures
        text@ == decimal(number as nat),
    decreases number,
{
    if number < 10 {
        String::from_str(digit_text(number))
    } else {
        let mut text = u32_to_string(number / 10);
        text.append(digit_text(number % 10));
        assert(text@ =~= decimal(number as nat / 10).push(digit_char(number as nat % 10)));
        text
    }
}

/// The texts of `parts` in a row, with `separator` between each two.
pub fn join(parts: &Vec<String>, separator: &str) -> (text: String)
    ensures
        text@ == joined(parts@.map_values(|part: String| part@), separator@),
{
    let ghost texts = parts@.map_values(|part: String| part@);
    let mut text = String::new();
    let mut i: usize = 0;
    while i < parts.len()
        invariant
            i <= parts.len(),
            texts == parts@.map_values(|part: String| part@),
            text@ == joined(texts.subrange(0, i as int), separator@),
        decreases parts.len() - i,
    {
        proof {
            let before = texts.subrange(0, i as int);
            let longer = texts.subrange(0, i + 1);
            assert(longer.drop_last() == before);
            assert(longer.last() == parts[i as int]@);
            if i == 0 {
                assert(joined(before, separator@) == Seq::<char>::empty());
                assert(Seq::<char>::empty() + parts[i as int]@ == parts[i as int]@);
            }
        }
        if i > 0 {
            text.append(separator);
        }
        text.append(parts[i].as_str());
        i += 1;
    }
    assert(texts.subrange(0, parts.len() as int) == texts);
    text
}

} // verus!
