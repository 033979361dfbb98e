//! Texts put together from parts.
use vstd::prelude::*;
use vstd::string::{StrSliceExecFns, StringExecFns};

verus! {

/// Joins two texts: the result is the first text followed by the second.
pub(crate) fn concat(left: &str, right: &str) -> (r: String)
    ensures
        r@ == left@ + right@,
{
    let mut joined = left.to_owned();
    joined.append(right);
    joined
}

/// Whether a text begins with another one.
pub(crate) fn starts_with(text: &str, prefix: &str) -> (r: bool)
    ensures
        r == prefix@.is_prefix_of(text@),
{
    let length: usize = prefix.unicode_len();
    if text.unicode_len() < length {
        return false;
    }
    let mut index: usize = 0;
    while index < length
        invariant
            index <= length,
            length == prefix@.len(),
            length <= text@.len(),
            forall|i: int| 0 <= i < index ==> prefix@[i] == text@[i],
        decreases length - index,
    {
        if prefix.get_char(index) != text.get_char(index) {
            assert(text@.subrange(0, length as int)[index as int] == text@[index as int]);
            return false;
        }
        index = index + 1;
    }
    assert(prefix@ =~= text@.subrange(0, length as int));
    true
}

/// The decimal digit with the given value.
pub open spec fn digit(value: int) -> char {
    (48 + value) as char
}

/// A number in decimal notation.
pub open spec fn decimal_digits(value: nat) -> Seq<char>
    decreases value,
{
    if value < 10 {
        seq![digit(value as int)]
    } else {
        decimal_digits(value / 10).push(digit((value % 10) as int))
    }
}

/// The text of one decimal digit.
fn digit_text(value: u64) -> (r: &'static str)
    requires
        value < 10,
    ensures
        r@ == seq![digit(value as int)],
{
    proof {
        reveal_strlit("0");
        reveal_strlit("1");
        reveal_strlit("2");
        reveal_strlit("3");
        reveal_strlit("4");
        reveal_strlit("5");
        reveal_strlit("6");
        reveal_strlit("7");
        reveal_strlit("8");
        reveal_strlit("9");
    }
    match value {
        0 => "0",
        1 => "1",
        2 => "2",
        3 => "3",
        4 => "4",
        5 => "5",
        6 => "6",
        7 => "7",
        8 => "8",
        _ => "9",
    }
}

/// Writes a number in decimal notation, without sign or leading zeros.
pub(crate) fn decimal(value: u64) -> (r: String)
    ensures
        r@ == decimal_digits(value as nat),
    decreases value,
{
    let last = digit_text(value % 10);
    if value < 10 {
        last.to_owned()
    } else {
        let mut text = decimal(value / 10);
        text.append(last);
        assert(text@ =~= decimal_digits((value / 10) as nat).push(digit((value % 10) as int)));
        text
    }
}

/// The number that a row of decimal digits stands for.
pub open spec fn number_of(text: Seq<char>) -> int
    decreases text.len(),
{
    if text.len() == 0 {
        0
    } else {
        number_of(text.drop_last()) * 10 + (text.last() as int - 48)
    }
}

/// A number is written in digits that stand for it, without a leading zero.
pub(crate) proof fn law_digits_stand_for_the_number(value: u64, text: String)
    requires
        call_ensures(decimal, (value,), text),
    ensures
        number_of(text@) == value,
        text@.len() > 0,
        forall|i: int| 0 <= i < text@.len() ==> '0' <= #[trigger] text@[i] <= '9',
        text@.len() > 1 ==> text@[0] != '0',
{
    lemma_digits(value as nat);
}

/// What the digits of a number are.
pub proof fn lemma_digits(value: nat)
    ensures
        ({
            let text = decimal_digits(value);
            &&& number_of(text) == value
            &&& text.len() > 0
            &&& forall|i: int| 0 <= i < text.len() ==> '0' <= #[trigger] text[i] <= '9'
            &&& value > 0 ==> text[0] != '0'
            &&& value == 0 ==> text.len() == 1
            &&& text.len() > 1 ==> value > 0
        }),
    decreases value,
{
    let text = decimal_digits(value);
    if value < 10 {
        assert(text.drop_last() =~= Seq::empty());
        assert(number_of(text.drop_last()) == 0);
        assert(text.last() as int == 48 + value);
    } else {
        let rest = decimal_digits(value / 10);
        lemma_digits(value / 10);
        assert(text.drop_last() =~= rest);
        assert(text.last() as int == 48 + value % 10);
        assert forall|i: int| 0 <= i < text.len() implies '0' <= #[trigger] text[i] <= '9' by {
            if i < rest.len() {
                assert(text[i] == rest[i]);
            }
        }
        assert(text[0] == rest[0]);
    }
}

/// Joined texts are the first followed by the second, and begin with the first.
pub(crate) proof fn law_joined_text_begins_with_its_first_part(
    left: &str,
    right: &str,
    joined: String,
    text: &str,
    begins: bool,
)
    requires
        call_ensures(concat, (left, right), joined),
        text@ == joined@,
        call_ensures(starts_with, (text, left), begins),
    ensures
        begins,
        joined@.len() == left@.len() + right@.len(),
        forall|i: int| 0 <= i < right@.len() ==> #[trigger] joined@[left@.len() + i] == right@[i],
{
    assert(left@ =~= joined@.subrange(0, left@.len() as int));
}

} // verus!
