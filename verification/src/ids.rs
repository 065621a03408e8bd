//! Request, ray, workflow and signal identities: 128-bit UUID values, with
//! the generator and the canonical rendering supplied by the `uuid` crate.
use vstd::prelude::*;

verus! {

/// The lower-case hex digit of a value below sixteen.
pub open spec fn hex_digit(n: int) -> char {
    if n == 0 {
        '0'
    } else if n == 1 {
        '1'
    } else if n == 2 {
        '2'
    } else if n == 3 {
        '3'
    } else if n == 4 {
        '4'
    } else if n == 5 {
        '5'
    } else if n == 6 {
        '6'
    } else if n == 7 {
        '7'
    } else if n == 8 {
        '8'
    } else if n == 9 {
        '9'
    } else if n == 10 {
        'a'
    } else if n == 11 {
        'b'
    } else if n == 12 {
        'c'
    } else if n == 13 {
        'd'
    } else if n == 14 {
        'e'
    } else {
        'f'
    }
}

/// The low `digits` hex digits of `v`, most significant first.
pub open spec fn hex_digits(v: int, digits: nat) -> Seq<char>
    decreases digits,
{
    if digits == 0 {
        Seq::empty()
    } else {
        hex_digits(v / 16, (digits - 1) as nat).push(hex_digit(v % 16))
    }
}

/// The canonical hyphenated lowercase rendering of a 128-bit UUID value:
/// its 32 hex digits, most significant first, in groups of 8, 4, 4, 4 and
/// 12 separated by hyphens.
pub open spec fn uuid_hyphenated(id: u128) -> Seq<char> {
    let h = hex_digits(id as int, 32);
    h.subrange(0, 8) + seq!['-'] + h.subrange(8, 12) + seq!['-'] + h.subrange(12, 16) + seq!['-']
        + h.subrange(16, 20) + seq!['-'] + h.subrange(20, 32)
}

pub proof fn lemma_hex_digits_len(v: int, digits: nat)
    ensures
        hex_digits(v, digits).len() == digits,
    decreases digits,
{
    if digits > 0 {
        lemma_hex_digits_len(v / 16, (digits - 1) as nat);
    }
}

/// The hyphenated rendering is always 36 characters.
pub proof fn lemma_uuid_hyphenated_len(id: u128)
    ensures
        uuid_hyphenated(id).len() == 36,
{
    lemma_hex_digits_len(id as int, 32);
}

/// Relies on uuid::Uuid::new_v4: a freshly generated random version-4 UUID,
/// handed back as its 128-bit value. The value is random; nothing is
/// promised of it, and two calls may differ. The generator draws from the
/// operating system's randomness source and aborts only if that source
/// itself fails — an environmental condition, not one any input reaches.
#[verifier::external_body]
pub(crate) fn gen_uuid_v4() -> u128 {
    uuid::Uuid::new_v4().as_u128()
}

/// Relies on uuid::Uuid::from_u128 and its Display rendering: from_u128
/// takes the value's big-endian bytes, and Display prints the hyphenated
/// lowercase form — exactly what `uuid_hyphenated` states.
#[verifier::external_body]
pub(crate) fn uuid_string(id: u128) -> (r: String)
    ensures
        r@ == uuid_hyphenated(id),
{
    uuid::Uuid::from_u128(id).to_string()
}

} // verus!
