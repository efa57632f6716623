//! Canonical full-range unsigned conversion to and from decimal text.
//!
//! PostgreSQL `numeric` values cross the driver boundary as text, so that the
//! whole `u64` range survives. Exactly one text stands for each number.
use vstd::prelude::*;

use crate::text::copy_text;

verus! {

/// The character of one decimal digit.
pub open spec fn digit_char(digit: nat) -> char {
    if digit == 0 {
        '0'
    } else if digit == 1 {
        '1'
    } else if digit == 2 {
        '2'
    } else if digit == 3 {
        '3'
    } else if digit == 4 {
        '4'
    } else if digit == 5 {
        '5'
    } else if digit == 6 {
        '6'
    } else if digit == 7 {
        '7'
    } else if digit == 8 {
        '8'
    } else {
        '9'
    }
}

/// Whether a character is an ASCII digit.
pub open spec fn is_digit(c: char) -> bool {
    '0' <= c <= '9'
}

/// The number an ASCII digit stands for.
pub open spec fn digit_value(c: char) -> nat {
    (c as int - '0' as int) as nat
}

/// The decimal text of a number, without leading zeros.
pub open spec fn decimal(value: nat) -> Seq<char>
    decreases value,
{
    if value < 10 {
        seq![digit_char(value)]
    } else {
        decimal(value / 10).push(digit_char(value % 10))
    }
}

/// The number that a sequence of digits denotes.
pub open spec fn decimal_value(text: Seq<char>) -> nat
    decreases text.len(),
{
    if text.len() == 0 {
        0
    } else {
        decimal_value(text.drop_last()) * 10 + digit_value(text.last())
    }
}

/// Nonempty ASCII digits without a superfluous leading zero.
pub open spec fn canonical(text: Seq<char>) -> bool {
    &&& text.len() > 0
    &&& forall|i: int| 0 <= i < text.len() ==> is_digit(#[trigger] text[i])
    &&& text.len() > 1 ==> text[0] != '0'
}

/// Whether text is the canonical decimal form of a `u64`.
pub open spec fn parses(text: Seq<char>) -> bool {
    canonical(text) && decimal_value(text) <= u64::MAX
}

/// The `u64` that canonical text stands for.
pub open spec fn parsed(text: Seq<char>) -> u64 {
    decimal_value(text) as u64
}

/// A PostgreSQL numeric value was not canonical full-range unsigned decimal text.
#[derive(Clone, Debug, PartialEq, Eq)]
pub struct NumericCodecError<T = String> {
    /// Stable persisted field name.
    pub field: &'static str,
    /// Rejected textual representation.
    pub value: T,
}

impl View for NumericCodecError<String> {
    type V = NumericCodecError<Seq<char>>;

    open spec fn view(&self) -> NumericCodecError<Seq<char>> {
        NumericCodecError { field: self.field, value: self.value@ }
    }
}

proof fn lemma_decimal_facts(value: nat)
    ensures
        canonical(decimal(value)),
        decimal_value(decimal(value)) == value,
        decimal(value)[0] == '0' ==> value == 0,
    decreases value,
{
    let text = decimal(value);
    if value < 10 {
        assert(text.drop_last() =~= Seq::<char>::empty());
        assert(decimal_value(text.drop_last()) == 0);
    } else {
        lemma_decimal_facts(value / 10);
        let prefix = decimal(value / 10);
        assert(text.drop_last() =~= prefix);
        assert forall|i: int| 0 <= i < text.len() implies is_digit(#[trigger] text[i]) by {
            if i < prefix.len() {
                assert(text[i] == prefix[i]);
            }
        }
        assert(text[0] == prefix[0]);
    }
}

proof fn lemma_decimal_value_positive(text: Seq<char>)
    requires
        canonical(text),
        text[0] != '0',
    ensures
        decimal_value(text) > 0,
    decreases text.len(),
{
    if text.len() == 1 {
        assert(text.drop_last() =~= Seq::<char>::empty());
        assert(decimal_value(text.drop_last()) == 0);
        assert(is_digit(text[0]));
    } else {
        let prefix = text.drop_last();
        assert forall|i: int| 0 <= i < prefix.len() implies is_digit(#[trigger] prefix[i]) by {
            assert(prefix[i] == text[i]);
        }
        lemma_decimal_value_positive(prefix);
    }
}

proof fn lemma_canonical_is_decimal(text: Seq<char>)
    requires
        canonical(text),
    ensures
        decimal(decimal_value(text)) == text,
    decreases text.len(),
{
    let prefix = text.drop_last();
    let last = text.last();
    assert(is_digit(text[text.len() - 1]));
    assert(digit_char(digit_value(last)) == last);
    if text.len() == 1 {
        assert(prefix =~= Seq::<char>::empty());
        assert(decimal_value(prefix) == 0);
        assert(decimal(decimal_value(text)) =~= text);
    } else {
        assert forall|i: int| 0 <= i < prefix.len() implies is_digit(#[trigger] prefix[i]) by {
            assert(prefix[i] == text[i]);
        }
        assert(prefix[0] == text[0]);
        lemma_canonical_is_decimal(prefix);
        lemma_decimal_value_positive(prefix);
        assert(decimal_value(text) >= 10);
        assert(decimal_value(text) / 10 == decimal_value(prefix));
        assert(decimal_value(text) % 10 == digit_value(last));
        assert(prefix.push(last) =~= text);
    }
}

proof fn lemma_decimal_value_prefix(text: Seq<char>, length: int)
    requires
        0 <= length <= text.len(),
        forall|i: int| 0 <= i < text.len() ==> is_digit(#[trigger] text[i]),
    ensures
        decimal_value(text.take(length)) <= decimal_value(text),
    decreases text.len(),
{
    if length == text.len() {
        assert(text.take(length) =~= text);
    } else {
        let prefix = text.drop_last();
        assert forall|i: int| 0 <= i < prefix.len() implies is_digit(#[trigger] prefix[i]) by {
            assert(prefix[i] == text[i]);
        }
        lemma_decimal_value_prefix(prefix, length);
        assert(prefix.take(length) =~= text.take(length));
    }
}

/// The decimal text of every `u64` is accepted and denotes that number.
pub proof fn law_decimal_round_trip(value: u64)
    ensures
        parses(decimal(value as nat)),
        parsed(decimal(value as nat)) == value,
{
    lemma_decimal_facts(value as nat);
}

/// Accepted text is the very text that encoding its number gives.
pub proof fn law_decimal_canonical(text: Seq<char>)
    requires
        parses(text),
    ensures
        decimal(parsed(text) as nat) == text,
{
    lemma_canonical_is_decimal(text);
}

/// Different numbers have different texts.
pub proof fn law_decimal_injective(left: u64, right: u64)
    requires
        decimal(left as nat) == decimal(right as nat),
    ensures
        left == right,
{
    law_decimal_round_trip(left);
    law_decimal_round_trip(right);
}

fn digit_text(digit: u64) -> (result: &'static str)
    requires
        digit < 10,
    ensures
        result@ == seq![digit_char(digit as nat)],
{
    proof {
        reveal_strlit("0");
        reveal_strlit("1");
        reveal_strlit("2");
        reveal_strlit("3");
        reveal_strlit("4");
        reveal_strlit("5");
        reveal_strlit("6");
        reveal_strlit("7");
        reveal_strlit("8");
        reveal_strlit("9");
    }
    let result = if digit == 0 {
        "0"
    } else if digit == 1 {
        "1"
    } else if digit == 2 {
        "2"
    } else if digit == 3 {
        "3"
    } else if digit == 4 {
        "4"
    } else if digit == 5 {
        "5"
    } else if digit == 6 {
        "6"
    } else if digit == 7 {
        "7"
    } else if digit == 8 {
        "8"
    } else {
        "9"
    };
    assert(result@ =~= seq![digit_char(digit as nat)]);
    result
}

/// Renders a number as canonical decimal text.
pub fn encode_u64(value: u64) -> (result: String)
    ensures
        result@ == decimal(value as nat),
    decreases value,
{
    if value < 10 {
        copy_text(digit_text(value))
    } else {
        let mut result = encode_u64(value / 10);
        result.append(digit_text(value % 10));
        assert(result@ =~= decimal(value as nat));
        result
    }
}

/// Reads a number back from canonical decimal text.
pub fn decode_u64(field: &'static str, numeric_text: &str) -> (result: Result<
    u64,
    NumericCodecError,
>)
    ensures
        match result {
            Ok(value) => parses(numeric_text@) && value == parsed(numeric_text@),
            Err(error) => !parses(numeric_text@) && error@ == (NumericCodecError {
                field,
                value: numeric_text@,
            }),
        },
{
    let length: usize = numeric_text.unicode_len();
    if length == 0 {
        return Err(NumericCodecError { field, value: copy_text(numeric_text) });
    }
    if length > 1 && numeric_text.get_char(0) == '0' {
        return Err(NumericCodecError { field, value: copy_text(numeric_text) });
    }
    let mut index: usize = 0;
    while index < length
        invariant
            index <= length,
            length == numeric_text@.len(),
            forall|i: int| 0 <= i < index ==> is_digit(#[trigger] numeric_text@[i]),
        decreases length - index,
    {
        let c = numeric_text.get_char(index);
        if c < '0' || c > '9' {
            assert(!is_digit(numeric_text@[index as int]));
            return Err(NumericCodecError { field, value: copy_text(numeric_text) });
        }
        index = index + 1;
    }
    assert(canonical(numeric_text@));
    let mut value: u64 = 0;
    index = 0;
    assert(numeric_text@.take(0) =~= Seq::<char>::empty());
    while index < length
        invariant
            index <= length,
            length == numeric_text@.len(),
            canonical(numeric_text@),
            value == decimal_value(numeric_text@.take(index as int)),
        decreases length - index,
    {
        let c = numeric_text.get_char(index);
        let ghost next = numeric_text@.take(index + 1);
        assert(next.drop_last() =~= numeric_text@.take(index as int));
        assert(next.last() == c);
        assert(is_digit(numeric_text@[index as int]));
        let digit: u64 = c as u64 - 48;
        proof {
            lemma_decimal_value_prefix(numeric_text@, index + 1);
        }
        if value > (u64::MAX - digit) / 10 {
            return Err(NumericCodecError { field, value: copy_text(numeric_text) });
        }
        value = value * 10 + digit;
        index = index + 1;
    }
    assert(numeric_text@.take(length as int) =~= numeric_text@);
    Ok(value)
}

} // verus!
