//! Field elements of the Stark curve's base field, as the chain writes addresses,
//! hashes and secret scalars, and their hexadecimal text form.

use vstd::prelude::*;

verus! {

/// The modulus of the field: 2^251 + 17 * 2^192 + 1.
pub open spec fn field_modulus() -> nat {
    0x800000000000011000000000000000000000000000000000000000000000001nat
}

/// Most hexadecimal digits that the text of a field element may hold.
pub open spec fn max_hex_digits() -> nat {
    64
}

/// Whether `c` is a hexadecimal digit, in either case.
pub open spec fn is_hex_digit(c: char) -> bool {
    ('0' <= c && c <= '9') || ('a' <= c && c <= 'f') || ('A' <= c && c <= 'F')
}

/// The number that a hexadecimal digit stands for.
pub open spec fn hex_digit_value(c: char) -> nat
    recommends
        is_hex_digit(c),
{
    if '0' <= c && c <= '9' {
        (c as nat - '0' as nat) as nat
    } else if 'a' <= c && c <= 'f' {
        (c as nat - 'a' as nat + 10) as nat
    } else {
        (c as nat - 'A' as nat + 10) as nat
    }
}

/// The text without its `0x` prefix. The prefix may be missing, and may be repeated.
pub open spec fn strip_hex_prefix(text: Seq<char>) -> Seq<char>
    decreases text.len(),
{
    if text.len() >= 2 && text[0] == '0' && text[1] == 'x' {
        strip_hex_prefix(text.skip(2))
    } else {
        text
    }
}

/// The number that a string of hexadecimal digits writes, most significant digit first.
/// The empty string writes zero.
pub open spec fn hex_value(digits: Seq<char>) -> nat
    decreases digits.len(),
{
    if digits.len() == 0 {
        0
    } else {
        16 * hex_value(digits.drop_last()) + hex_digit_value(digits.last())
    }
}

/// The number that a string of bytes writes, most significant byte first.
pub open spec fn be_value(bytes: Seq<u8>) -> nat
    decreases bytes.len(),
{
    if bytes.len() == 0 {
        0
    } else {
        256 * be_value(bytes.drop_last()) + bytes.last() as nat
    }
}

/// Whether every character of `digits` is a hexadecimal digit.
pub open spec fn all_hex_digits(digits: Seq<char>) -> bool {
    forall|i: int| 0 <= i < digits.len() ==> is_hex_digit(#[trigger] digits[i])
}

/// Whether `text` is the hexadecimal form of a field element: after the optional `0x`
/// prefix come at most 64 hexadecimal digits, and the number they write is below the
/// field's modulus.
pub open spec fn is_felt_hex(text: Seq<char>) -> bool {
    let digits = strip_hex_prefix(text);
    &&& digits.len() <= max_hex_digits()
    &&& all_hex_digits(digits)
    &&& hex_value(digits) < field_modulus()
}

/// The field element that well-formed `text` writes.
pub open spec fn felt_hex_value(text: Seq<char>) -> nat
    recommends
        is_felt_hex(text),
{
    hex_value(strip_hex_prefix(text))
}

/// Whether `text` is malformed in one of the two ways that show without arithmetic: it
/// holds, after the prefix, a character that is no hexadecimal digit, or more than 64
/// characters.
pub open spec fn is_malformed_hex(text: Seq<char>) -> bool {
    let digits = strip_hex_prefix(text);
    digits.len() > max_hex_digits() || !all_hex_digits(digits)
}

/// A text of the wrong length, or with a character that is no hexadecimal digit, is not
/// the hexadecimal form of a field element.
pub proof fn lemma_malformed_hex_is_refused(text: Seq<char>)
    requires
        is_malformed_hex(text),
    ensures
        !is_felt_hex(text),
{
}

/// Byte strings of one length that write the same number are the same string.
pub proof fn lemma_be_value_injective(a: Seq<u8>, b: Seq<u8>)
    requires
        a.len() == b.len(),
        be_value(a) == be_value(b),
    ensures
        a == b,
    decreases a.len(),
{
    if a.len() == 0 {
        assert(a =~= b);
    } else {
        let x = be_value(a.drop_last());
        let y = be_value(b.drop_last());
        assert(256 * x + a.last() as nat == 256 * y + b.last() as nat);
        assert(x == y && a.last() == b.last());
        lemma_be_value_injective(a.drop_last(), b.drop_last());
        assert(a =~= a.drop_last().push(a.last()));
        assert(b =~= b.drop_last().push(b.last()));
    }
}

/// Parses the hexadecimal text of a field element into its 32 big-endian bytes.
///
/// Trusted: the body calls `FieldElement::from_hex_be` of the starknet crate and, where
/// that succeeds, `FieldElement::to_bytes_be` on what it gave. The contract claims that
/// the first succeeds exactly on the texts that `is_felt_hex` accepts (it drops every
/// leading `0x`, refuses more than 64 characters and any character that is no
/// hexadecimal digit, pads with zeros on the left, and refuses a number that is not
/// below the modulus), and that the bytes of the second write the same number as the
/// digits do.
#[verifier::external_body]
fn parse_hex_be(text: &str) -> (bytes: Option<[u8; 32]>)
    ensures
        bytes is Some <==> is_felt_hex(text@),
        bytes matches Some(b) ==> be_value(b@) == felt_hex_value(text@),
{
    match starknet::core::types::FieldElement::from_hex_be(text) {
        Ok(element) => Some(element.to_bytes_be()),
        Err(_) => None,
    }
}

/// An element of the field, held as its 32 big-endian bytes.
#[derive(Clone, Copy, Debug, PartialEq, Eq)]
pub struct Felt {
    bytes: [u8; 32],
}

impl View for Felt {
    type V = nat;

    /// The number that the element stands for.
    closed spec fn view(&self) -> nat {
        be_value(self.bytes@)
    }
}

impl Felt {
    /// Every element is reduced: its number is below the modulus.
    #[verifier::type_invariant]
    spec fn is_reduced(self) -> bool {
        be_value(self.bytes@) < field_modulus()
    }

    /// Reads a field element from its hexadecimal text, with or without a `0x` prefix.
    /// `None` exactly where the text is malformed: a character that is no hexadecimal
    /// digit, more than 64 digits, or a number that the field does not hold.
    pub fn from_hex_be(text: &str) -> (element: Option<Felt>)
        ensures
            element is Some <==> is_felt_hex(text@),
            element matches Some(f) ==> f@ == felt_hex_value(text@),
    {
        match parse_hex_be(text) {
            Some(bytes) => Some(Felt { bytes }),
            None => None,
        }
    }

    /// The element's 32 bytes, most significant first.
    pub fn to_bytes_be(&self) -> (bytes: [u8; 32])
        ensures
            be_value(bytes@) == self@,
            self@ < field_modulus(),
    {
        proof {
            use_type_invariant(self);
        }
        self.bytes
    }
}

/// Two field elements that stand for the same number are the same element: the number
/// says all there is to say of an element.
pub proof fn lemma_value_determines_felt(a: Felt, b: Felt)
    requires
        a@ == b@,
    ensures
        a == b,
{
    broadcast use vstd::array::group_array_axioms;

    lemma_be_value_injective(a.bytes@, b.bytes@);
    assert(a.bytes =~= b.bytes);
}

} // verus!
