//! Byte strings: exact comparison, lexicographic order, big-endian identities.
use vstd::prelude::*;

verus! {

/// Whether two byte strings are identical.
pub fn bytes_eq(left: &Vec<u8>, right: &Vec<u8>) -> (result: bool)
    ensures
        result == (left@ == right@),
{
    if left.len() != right.len() {
        return false;
    }
    let mut index: usize = 0;
    while index < left.len()
        invariant
            index <= left.len(),
            left.len() == right.len(),
            forall|i: int| 0 <= i < index ==> left@[i] == right@[i],
        decreases left.len() - index,
    {
        if left[index] != right[index] {
            return false;
        }
        index = index + 1;
    }
    assert(left@ =~= right@);
    true
}

/// A copy of a byte string.
pub fn copy_bytes(source: &Vec<u8>) -> (result: Vec<u8>)
    ensures
        result@ == source@,
{
    let result = source.clone();
    assert(result@ =~= source@);
    result
}

/// A copy of an optional byte string.
pub fn copy_optional_bytes(source: &Option<Vec<u8>>) -> (result: Option<Vec<u8>>)
    ensures
        optional_bytes(result) == optional_bytes(*source),
{
    match source {
        Some(bytes) => Some(copy_bytes(bytes)),
        None => None,
    }
}

/// The content of an optional byte string.
pub open spec fn optional_bytes(value: Option<Vec<u8>>) -> Option<Seq<u8>> {
    match value {
        Some(bytes) => Some(bytes@),
        None => None,
    }
}

/// The content of an optional text.
pub open spec fn optional_text(value: Option<String>) -> Option<Seq<char>> {
    match value {
        Some(text) => Some(text@),
        None => None,
    }
}

/// Lexicographic order of byte strings.
pub open spec fn lex_lt(left: Seq<u8>, right: Seq<u8>) -> bool
    decreases left.len(),
{
    if right.len() == 0 {
        false
    } else if left.len() == 0 {
        true
    } else if left[0] != right[0] {
        left[0] < right[0]
    } else {
        lex_lt(left.drop_first(), right.drop_first())
    }
}

/// No byte string precedes itself.
pub proof fn lemma_lex_irreflexive(value: Seq<u8>)
    ensures
        !lex_lt(value, value),
    decreases value.len(),
{
    if value.len() > 0 {
        lemma_lex_irreflexive(value.drop_first());
    }
}

/// The order of byte strings is transitive.
pub proof fn lemma_lex_transitive(first: Seq<u8>, second: Seq<u8>, third: Seq<u8>)
    requires
        lex_lt(first, second),
        lex_lt(second, third),
    ensures
        lex_lt(first, third),
    decreases first.len(),
{
    if first.len() > 0 && first[0] == second[0] && second[0] == third[0] {
        lemma_lex_transitive(first.drop_first(), second.drop_first(), third.drop_first());
    }
}

/// Two byte strings are equal or one precedes the other.
pub proof fn lemma_lex_total(left: Seq<u8>, right: Seq<u8>)
    ensures
        left == right || lex_lt(left, right) || lex_lt(right, left),
    decreases left.len(),
{
    if left.len() == 0 {
        if right.len() == 0 {
            assert(left =~= right);
        }
    } else if right.len() > 0 && left[0] == right[0] {
        lemma_lex_total(left.drop_first(), right.drop_first());
        if left.drop_first() == right.drop_first() {
            assert(left =~= seq![left[0]] + left.drop_first());
            assert(right =~= seq![right[0]] + right.drop_first());
        }
    }
}

/// Decides the lexicographic order.
pub fn bytes_lt(left: &Vec<u8>, right: &Vec<u8>) -> (result: bool)
    ensures
        result == lex_lt(left@, right@),
{
    let mut index: usize = 0;
    assert(left@.skip(0) =~= left@);
    assert(right@.skip(0) =~= right@);
    while index < left.len() && index < right.len()
        invariant
            index <= left.len(),
            index <= right.len(),
            lex_lt(left@, right@) == lex_lt(left@.skip(index as int), right@.skip(index as int)),
        decreases left.len() - index,
    {
        assert(left@.skip(index as int)[0] == left@[index as int]);
        assert(right@.skip(index as int)[0] == right@[index as int]);
        assert(left@.skip(index as int).drop_first() =~= left@.skip(index + 1));
        assert(right@.skip(index as int).drop_first() =~= right@.skip(index + 1));
        if left[index] != right[index] {
            return left[index] < right[index];
        }
        index = index + 1;
    }
    index < right.len()
}

/// The last `width` base-256 digits of a number, most significant first.
pub open spec fn be_bytes(value: nat, width: nat) -> Seq<u8>
    decreases width,
{
    if width == 0 {
        seq![]
    } else {
        be_bytes(value / 256, (width - 1) as nat).push((value % 256) as u8)
    }
}

/// The number that base-256 digits denote, most significant first.
pub open spec fn be_value(bytes: Seq<u8>) -> nat
    decreases bytes.len(),
{
    if bytes.len() == 0 {
        0
    } else {
        be_value(bytes.drop_last()) * 256 + bytes.last() as nat
    }
}

/// Powers of 256.
pub open spec fn pow256(exponent: nat) -> nat
    decreases exponent,
{
    if exponent == 0 {
        1
    } else {
        256 * pow256((exponent - 1) as nat)
    }
}

/// The sixteen bytes of an identity.
pub open spec fn id_bytes(value: u128) -> Seq<u8> {
    be_bytes(value as nat, 16)
}

/// The identity that sixteen bytes spell.
pub open spec fn id_value(bytes: Seq<u8>) -> u128 {
    be_value(bytes) as u128
}

proof fn lemma_pow256_sixteen()
    ensures
        pow256(16) == u128::MAX + 1,
{
    reveal_with_fuel(pow256, 17);
    assert(pow256(16) == 0x1_0000_0000_0000_0000_0000_0000_0000_0000int);
}

proof fn lemma_be_bytes_len(value: nat, width: nat)
    ensures
        be_bytes(value, width).len() == width,
    decreases width,
{
    if width > 0 {
        lemma_be_bytes_len(value / 256, (width - 1) as nat);
    }
}

proof fn lemma_be_value_bound(bytes: Seq<u8>)
    ensures
        be_value(bytes) < pow256(bytes.len()),
    decreases bytes.len(),
{
    if bytes.len() > 0 {
        lemma_be_value_bound(bytes.drop_last());
    }
}

proof fn lemma_be_round_trip(value: nat, width: nat)
    requires
        value < pow256(width),
    ensures
        be_value(be_bytes(value, width)) == value,
    decreases width,
{
    if width > 0 {
        lemma_be_round_trip(value / 256, (width - 1) as nat);
        assert(be_bytes(value, width).drop_last() =~= be_bytes(value / 256, (width - 1) as nat));
    }
}

proof fn lemma_be_value_round_trip(bytes: Seq<u8>)
    ensures
        be_bytes(be_value(bytes), bytes.len()) == bytes,
    decreases bytes.len(),
{
    if bytes.len() > 0 {
        lemma_be_value_round_trip(bytes.drop_last());
        assert(be_value(bytes) / 256 == be_value(bytes.drop_last()));
        assert(be_value(bytes) % 256 == bytes.last() as nat);
        assert(bytes.drop_last().push(bytes.last()) =~= bytes);
    } else {
        assert(be_bytes(be_value(bytes), 0) =~= bytes);
    }
}

/// An identity has sixteen bytes, and they spell it.
pub proof fn lemma_id_round_trip(value: u128)
    ensures
        id_bytes(value).len() == 16,
        id_value(id_bytes(value)) == value,
{
    lemma_pow256_sixteen();
    lemma_be_bytes_len(value as nat, 16);
    lemma_be_round_trip(value as nat, 16);
}

/// Sixteen bytes are the bytes of the identity they spell.
pub proof fn lemma_id_value_round_trip(bytes: Seq<u8>)
    requires
        bytes.len() == 16,
    ensures
        be_value(bytes) <= u128::MAX,
        id_bytes(id_value(bytes)) == bytes,
{
    lemma_pow256_sixteen();
    lemma_be_value_bound(bytes);
    lemma_be_value_round_trip(bytes);
}

proof fn lemma_lex_push(left: Seq<u8>, right: Seq<u8>, a: u8, b: u8)
    requires
        left.len() == right.len(),
    ensures
        lex_lt(left.push(a), right.push(b)) <==> (lex_lt(left, right) || (left == right && a < b)),
    decreases left.len(),
{
    let x = left.push(a);
    let y = right.push(b);
    if left.len() == 0 {
        assert(left =~= right);
        assert(x.drop_first() =~= Seq::<u8>::empty());
        assert(y.drop_first() =~= Seq::<u8>::empty());
        lemma_lex_irreflexive(x.drop_first());
    } else {
        assert(x[0] == left[0] && y[0] == right[0]);
        assert(x.drop_first() =~= left.drop_first().push(a));
        assert(y.drop_first() =~= right.drop_first().push(b));
        lemma_lex_push(left.drop_first(), right.drop_first(), a, b);
        if left[0] == right[0] && left.drop_first() == right.drop_first() {
            assert(left =~= seq![left[0]] + left.drop_first());
            assert(right =~= seq![right[0]] + right.drop_first());
        }
    }
}

proof fn lemma_be_order(left: nat, right: nat, width: nat)
    requires
        left < pow256(width),
        right < pow256(width),
    ensures
        lex_lt(be_bytes(left, width), be_bytes(right, width)) <==> left < right,
    decreases width,
{
    if width > 0 {
        let narrower = (width - 1) as nat;
        lemma_be_order(left / 256, right / 256, narrower);
        lemma_be_bytes_len(left / 256, narrower);
        lemma_be_bytes_len(right / 256, narrower);
        lemma_lex_push(
            be_bytes(left / 256, narrower),
            be_bytes(right / 256, narrower),
            (left % 256) as u8,
            (right % 256) as u8,
        );
        lemma_be_round_trip(left / 256, narrower);
        lemma_be_round_trip(right / 256, narrower);
    }
}

/// The byte order of identities is the order of the numbers they are.
pub proof fn lemma_id_order(left: u128, right: u128)
    ensures
        lex_lt(id_bytes(left), id_bytes(right)) <==> left < right,
{
    lemma_pow256_sixteen();
    lemma_be_order(left as nat, right as nat, 16);
}

fn be_vec(value: u128, width: u32) -> (result: Vec<u8>)
    ensures
        result@ == be_bytes(value as nat, width as nat),
    decreases width,
{
    if width == 0 {
        Vec::new()
    } else {
        let mut result = be_vec(value / 256, width - 1);
        result.push((value % 256) as u8);
        result
    }
}

/// The sixteen bytes of an identity, as a byte string.
pub fn id_vec(value: u128) -> (result: Vec<u8>)
    ensures
        result@ == id_bytes(value),
{
    be_vec(value, 16)
}

/// The sixteen bytes of an identity, as an array.
pub fn id_array(value: u128) -> (result: [u8; 16])
    ensures
        result@ == id_bytes(value),
{
    let b = be_vec(value, 16);
    proof {
        lemma_id_round_trip(value);
    }
    let result: [u8; 16] = [
        b[0],
        b[1],
        b[2],
        b[3],
        b[4],
        b[5],
        b[6],
        b[7],
        b[8],
        b[9],
        b[10],
        b[11],
        b[12],
        b[13],
        b[14],
        b[15],
    ];
    assert(result@ =~= b@);
    result
}

/// Reads the identity that exactly sixteen bytes spell.
pub fn id_from_bytes(bytes: &Vec<u8>) -> (result: u128)
    requires
        bytes.len() == 16,
    ensures
        result == id_value(bytes@),
{
    assert(bytes@.subrange(0, 16) =~= bytes@);
    be_read(bytes, 0)
}

/// Reads the identity that sixteen bytes starting at `start` spell.
pub fn be_read(bytes: &Vec<u8>, start: usize) -> (result: u128)
    requires
        start + 16 <= bytes.len(),
    ensures
        result == id_value(bytes@.subrange(start as int, start + 16)),
        result as nat == be_value(bytes@.subrange(start as int, start + 16)),
{
    let mut value: u128 = 0;
    let mut index: usize = 0;
    assert(bytes@.subrange(start as int, start as int) =~= Seq::<u8>::empty());
    while index < 16
        invariant
            index <= 16,
            start + 16 <= bytes.len(),
            value as nat == be_value(bytes@.subrange(start as int, start + index)),
        decreases 16 - index,
    {
        let ghost next = bytes@.subrange(start as int, start + index + 1);
        assert(next.drop_last() =~= bytes@.subrange(start as int, start + index));
        proof {
            lemma_be_value_bound(next);
            lemma_pow256_sixteen();
            lemma_pow256_monotone((index + 1) as nat, 16);
        }
        value = value * 256 + bytes[start + index] as u128;
        index = index + 1;
    }
    value
}

proof fn lemma_pow256_monotone(small: nat, large: nat)
    requires
        small <= large,
    ensures
        pow256(small) <= pow256(large),
    decreases large - small,
{
    if small < large {
        lemma_pow256_monotone(small, (large - 1) as nat);
        assert(pow256(large) == 256 * pow256((large - 1) as nat));
        assert(pow256((large - 1) as nat) <= 256 * pow256((large - 1) as nat));
    }
}

/// Reads the identity spelled by an array.
pub fn id_from_array(bytes: [u8; 16]) -> (result: u128)
    ensures
        result == id_value(bytes@),
        id_bytes(result) == bytes@,
{
    let mut copied: Vec<u8> = Vec::new();
    let mut index: usize = 0;
    while index < 16
        invariant
            index <= 16,
            copied@ == bytes@.subrange(0, index as int),
        decreases 16 - index,
    {
        copied.push(bytes[index]);
        assert(copied@ =~= bytes@.subrange(0, index + 1));
        index = index + 1;
    }
    assert(copied@ =~= bytes@);
    proof {
        lemma_id_value_round_trip(bytes@);
    }
    assert(copied@.subrange(0, 16) =~= bytes@);
    id_from_bytes(&copied)
}

} // verus!
