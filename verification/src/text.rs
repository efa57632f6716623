//! Exact comparison and construction of text.
use vstd::prelude::*;

verus! {

/// Whether two strings hold the same characters.
pub fn str_eq(left: &str, right: &str) -> (result: bool)
    ensures
        result == (left@ == right@),
{
    let length: usize = left.unicode_len();
    if length != right.unicode_len() {
        return false;
    }
    let mut index: usize = 0;
    while index < length
        invariant
            index <= length,
            length == left@.len(),
            length == right@.len(),
            forall|i: int| 0 <= i < index ==> left@[i] == right@[i],
        decreases length - index,
    {
        if left.get_char(index) != right.get_char(index) {
            return false;
        }
        index = index + 1;
    }
    assert(left@ =~= right@);
    true
}

/// A copy of a string slice.
pub fn copy_text(source: &str) -> (result: String)
    ensures
        result@ == source@,
{
    String::from_str(source)
}

/// Whether `whole` begins with `prefix`.
pub open spec fn has_prefix(whole: Seq<char>, prefix: Seq<char>) -> bool {
    prefix.len() <= whole.len() && whole.subrange(0, prefix.len() as int) == prefix
}

/// Decides whether `whole` begins with `prefix`.
pub fn starts_with(whole: &str, prefix: &str) -> (result: bool)
    ensures
        result == has_prefix(whole@, prefix@),
{
    let length: usize = prefix.unicode_len();
    if whole.unicode_len() < length {
        return false;
    }
    let mut index: usize = 0;
    while index < length
        invariant
            index <= length,
            length == prefix@.len(),
            length <= whole@.len(),
            forall|i: int| 0 <= i < index ==> whole@[i] == prefix@[i],
        decreases length - index,
    {
        if whole.get_char(index) != prefix.get_char(index) {
            assert(whole@.subrange(0, length as int)[index as int] != prefix@[index as int]);
            return false;
        }
        index = index + 1;
    }
    assert(whole@.subrange(0, length as int) =~= prefix@);
    true
}

/// The character of a hexadecimal digit.
pub open spec fn digit_char(digit: u8) -> char {
    if digit == 0 {
        '0'
    } else if digit == 1 {
        '1'
    } else if digit == 2 {
        '2'
    } else if digit == 3 {
        '3'
    } else if digit == 4 {
        '4'
    } else if digit == 5 {
        '5'
    } else if digit == 6 {
        '6'
    } else if digit == 7 {
        '7'
    } else if digit == 8 {
        '8'
    } else if digit == 9 {
        '9'
    } else if digit == 10 {
        'a'
    } else if digit == 11 {
        'b'
    } else if digit == 12 {
        'c'
    } else if digit == 13 {
        'd'
    } else if digit == 14 {
        'e'
    } else {
        'f'
    }
}

/// Bytes as hexadecimal text, two digits each.
pub open spec fn hexadecimal(bytes: Seq<u8>) -> Seq<char>
    decreases bytes.len(),
{
    if bytes.len() == 0 {
        Seq::empty()
    } else {
        hexadecimal(bytes.drop_last()).push(digit_char((bytes.last() / 16) as u8)).push(
            digit_char((bytes.last() % 16) as u8),
        )
    }
}

fn digit_text(digit: u8) -> (result: &'static str)
    requires
        digit < 16,
    ensures
        result@ == seq![digit_char(digit)],
{
    proof {
        reveal_strlit("0");
        reveal_strlit("1");
        reveal_strlit("2");
        reveal_strlit("3");
        reveal_strlit("4");
        reveal_strlit("5");
        reveal_strlit("6");
        reveal_strlit("7");
        reveal_strlit("8");
        reveal_strlit("9");
        reveal_strlit("a");
        reveal_strlit("b");
        reveal_strlit("c");
        reveal_strlit("d");
        reveal_strlit("e");
        reveal_strlit("f");
    }
    let result = match digit {
        0 => "0",
        1 => "1",
        2 => "2",
        3 => "3",
        4 => "4",
        5 => "5",
        6 => "6",
        7 => "7",
        8 => "8",
        9 => "9",
        10 => "a",
        11 => "b",
        12 => "c",
        13 => "d",
        14 => "e",
        _ => "f",
    };
    assert(result@ =~= seq![digit_char(digit)]);
    result
}

/// Bytes as hexadecimal text, two digits each.
pub fn hexadecimal_text(bytes: &Vec<u8>) -> (result: String)
    ensures
        result@ == hexadecimal(bytes@),
{
    proof {
        reveal_strlit("");
    }
    let mut result = copy_text("");
    let mut index: usize = 0;
    let ghost all = bytes@;
    assert(result@ =~= hexadecimal(all.take(0)));
    while index < bytes.len()
        invariant
            index <= all.len(),
            all == bytes@,
            result@ == hexadecimal(all.take(index as int)),
        decreases all.len() - index,
    {
        let byte: u8 = bytes[index];
        result.append(digit_text(byte / 16));
        result.append(digit_text(byte % 16));
        proof {
            let next = all.take(index + 1);
            assert(next.drop_last() =~= all.take(index as int));
            assert(next.last() == byte);
            assert(result@ =~= hexadecimal(next));
        }
        index = index + 1;
    }
    assert(all.take(index as int) =~= all);
    result
}

} // verus!
