//! 128-bit identifiers and their canonical text.
//!
//! Workspaces and objects are named by UUIDs. The library holds such an
//! identifier as its 128-bit value; parsing and printing are done by the
//! `uuid` crate.

use vstd::prelude::*;

verus! {

/// A 128-bit universally unique identifier, held by value.
#[derive(Clone, Copy, Debug, PartialEq, Eq, Structural)]
pub struct Uuid {
    /// The sixteen bytes of the identifier, most significant first.
    pub value: u128,
}

/// Why a text could not be read as an identifier.
#[derive(Clone, Copy, Debug, PartialEq, Eq, Structural)]
pub enum UuidError {
    /// The text is in none of the forms that the `uuid` crate reads.
    Malformed,
}

/// The lower-case hexadecimal digit for `n`, where `0 <= n < 16`.
pub open spec fn hex_digit(n: int) -> char {
    if n == 0 {
        '0'
    } else if n == 1 {
        '1'
    } else if n == 2 {
        '2'
    } else if n == 3 {
        '3'
    } else if n == 4 {
        '4'
    } else if n == 5 {
        '5'
    } else if n == 6 {
        '6'
    } else if n == 7 {
        '7'
    } else if n == 8 {
        '8'
    } else if n == 9 {
        '9'
    } else if n == 10 {
        'a'
    } else if n == 11 {
        'b'
    } else if n == 12 {
        'c'
    } else if n == 13 {
        'd'
    } else if n == 14 {
        'e'
    } else {
        'f'
    }
}

/// 16 to the power `e`.
pub open spec fn pow16(e: nat) -> nat
    decreases e,
{
    if e == 0 {
        1
    } else {
        16 * pow16((e - 1) as nat)
    }
}

/// The `k`-th of the 32 hexadecimal digits of `value`, counted from the most
/// significant one.
pub open spec fn nibble(value: u128, k: int) -> int {
    (value as int / pow16((31 - k) as nat) as int) % 16
}

/// Whether position `i` of the hyphenated form holds a hyphen.
pub open spec fn is_hyphen_position(i: int) -> bool {
    i == 8 || i == 13 || i == 18 || i == 23
}

/// How many hyphens the hyphenated form holds before position `i`.
pub open spec fn hyphens_before(i: int) -> int {
    if i < 8 {
        0
    } else if i < 13 {
        1
    } else if i < 18 {
        2
    } else if i < 23 {
        3
    } else {
        4
    }
}

/// The hyphenated lower-case form of `value`: 32 hexadecimal digits in
/// groups of 8, 4, 4, 4 and 12, a hyphen between two groups.
pub open spec fn hyphenated(value: u128) -> Seq<char> {
    Seq::new(
        36,
        |i: int|
            if is_hyphen_position(i) {
                '-'
            } else {
                hex_digit(nibble(value, i - hyphens_before(i)))
            },
    )
}

/// What `uuid::Uuid::parse_str` makes of a text: the identifier's value, or
/// `None` where it rejects the text.
pub uninterp spec fn uuid_parse(text: Seq<char>) -> Option<u128>;

/// The error type of the `uuid` crate.
#[verifier::external_type_specification]
#[verifier::external_body]
pub struct ExUuidCrateError(uuid::Error);

/// Calls `uuid::Uuid::to_string` on the identifier with the given value.
///
/// Trusted: the text is the hyphenated lower-case form, as the crate's
/// `Display` impl of `Uuid` writes it.
#[verifier::external_body]
fn uuid_to_string(value: u128) -> (text: String)
    ensures
        text@ == hyphenated(value),
{
    uuid::Uuid::from_u128(value).to_string()
}

/// Calls `uuid::Uuid::parse_str`.
///
/// Trusted: whether the text is accepted, and the value read from it, depend
/// on the text alone.
#[verifier::external_body]
fn uuid_parse_str(text: &str) -> (parsed: Result<u128, uuid::Error>)
    ensures
        parsed.is_ok() == uuid_parse(text@).is_some(),
        parsed.is_ok() ==> Some(parsed.unwrap()) == uuid_parse(text@),
{
    match uuid::Uuid::parse_str(text) {
        Ok(id) => Ok(id.as_u128()),
        Err(err) => Err(err),
    }
}

impl Uuid {
    /// The identifier with the given 128-bit value.
    pub fn from_u128(value: u128) -> (id: Self)
        ensures
            id.value == value,
    {
        Uuid { value }
    }

    /// The identifier's 128-bit value.
    pub fn as_u128(&self) -> (value: u128)
        ensures
            value == self.value,
    {
        self.value
    }

    /// The identifier's canonical text: its hyphenated lower-case form.
    pub open spec fn text(&self) -> Seq<char> {
        hyphenated(self.value)
    }

    /// The identifier in hyphenated lower-case form.
    pub fn to_text(&self) -> (text: String)
        ensures
            text@ == self.text(),
            text@.len() == 36,
    {
        uuid_to_string(self.value)
    }

    /// Reads an identifier from a text.
    pub fn parse_str(text: &str) -> (parsed: Result<Uuid, UuidError>)
        ensures
            parsed == Self::parse_result(text@),
    {
        match uuid_parse_str(text) {
            Ok(value) => Ok(Uuid { value }),
            Err(_) => Err(UuidError::Malformed),
        }
    }

    /// What `parse_str` returns for a text.
    pub open spec fn parse_result(text: Seq<char>) -> Result<Uuid, UuidError> {
        match uuid_parse(text) {
            Some(value) => Ok(Uuid { value }),
            None => Err(UuidError::Malformed),
        }
    }
}

/// The value of the first `k` hexadecimal digits of `value`.
spec fn leading(value: u128, k: nat) -> int
    recommends
        k <= 32,
{
    value as int / pow16((32 - k) as nat) as int
}

/// The position in the hyphenated form of the `k`-th hexadecimal digit.
spec fn digit_position(k: int) -> int {
    if k < 8 {
        k
    } else if k < 12 {
        k + 1
    } else if k < 16 {
        k + 2
    } else if k < 20 {
        k + 3
    } else {
        k + 4
    }
}

proof fn lemma_pow16_positive(e: nat)
    ensures
        pow16(e) > 0,
    decreases e,
{
    if e > 0 {
        lemma_pow16_positive((e - 1) as nat);
    }
}

proof fn lemma_pow16_adds(a: nat, b: nat)
    ensures
        pow16(a + b) == pow16(a) * pow16(b),
    decreases a,
{
    if a == 0 {
        assert(pow16(0) * pow16(b) == pow16(b)) by (nonlinear_arith)
            requires
                pow16(0) == 1,
        ;
    } else {
        lemma_pow16_adds((a - 1) as nat, b);
        let rest = pow16((a - 1) as nat);
        assert(pow16(a + b) == 16 * pow16((a - 1 + b) as nat));
        assert(16 * (rest * pow16(b)) == (16 * rest) * pow16(b)) by (nonlinear_arith);
    }
}

/// Sixteen to the power 32 is more than any 128-bit value.
proof fn lemma_pow16_of_32()
    ensures
        pow16(32) == 0x1_0000_0000_0000_0000_0000_0000_0000_0000,
{
    assert(pow16(4) == 0x1_0000) by {
        reveal_with_fuel(pow16, 5);
    }
    lemma_pow16_adds(4, 4);
    assert(pow16(8) == 0x1_0000_0000) by (nonlinear_arith)
        requires
            pow16(8) == pow16(4) * pow16(4),
            pow16(4) == 0x1_0000,
    ;
    lemma_pow16_adds(8, 8);
    assert(pow16(16) == 0x1_0000_0000_0000_0000) by (nonlinear_arith)
        requires
            pow16(16) == pow16(8) * pow16(8),
            pow16(8) == 0x1_0000_0000,
    ;
    lemma_pow16_adds(16, 16);
    assert(pow16(32) == 0x1_0000_0000_0000_0000_0000_0000_0000_0000) by (nonlinear_arith)
        requires
            pow16(32) == pow16(16) * pow16(16),
            pow16(16) == 0x1_0000_0000_0000_0000,
    ;
}

/// One more digit: the first `k + 1` digits are the first `k`, times
/// sixteen, plus the digit with index `k`.
proof fn lemma_leading_step(value: u128, k: nat)
    requires
        k < 32,
    ensures
        leading(value, k + 1) == 16 * leading(value, k) + nibble(value, k as int),
        0 <= nibble(value, k as int) < 16,
{
    let low = pow16((31 - k) as nat) as int;
    lemma_pow16_positive((31 - k) as nat);
    assert(pow16((32 - k) as nat) == 16 * pow16((31 - k) as nat));
    let y = value as int / low;
    vstd::arithmetic::div_mod::lemma_div_denominator(value as int, low, 16);
    assert(low * 16 == 16 * low) by (nonlinear_arith);
    vstd::arithmetic::div_mod::lemma_fundamental_div_mod(y, 16);
}

proof fn lemma_leading_agree(a: u128, b: u128, k: nat)
    requires
        k <= 32,
        forall|j: int| 0 <= j < k ==> nibble(a, j) == nibble(b, j),
    ensures
        leading(a, k) == leading(b, k),
    decreases k,
{
    if k == 0 {
        lemma_pow16_of_32();
        vstd::arithmetic::div_mod::lemma_basic_div(a as int, pow16(32) as int);
        vstd::arithmetic::div_mod::lemma_basic_div(b as int, pow16(32) as int);
    } else {
        lemma_leading_agree(a, b, (k - 1) as nat);
        lemma_leading_step(a, (k - 1) as nat);
        lemma_leading_step(b, (k - 1) as nat);
    }
}

/// Two identifiers with the same text are the same identifier: the text
/// names an object as well as the value does.
pub proof fn lemma_text_names_one_identifier(a: Uuid, b: Uuid)
    requires
        a.text() == b.text(),
    ensures
        a == b,
{
    assert forall|j: int| 0 <= j < 32 implies nibble(a.value, j) == nibble(b.value, j) by {
        let i = digit_position(j);
        assert(!is_hyphen_position(i));
        assert(i - hyphens_before(i) == j);
        assert(hyphenated(a.value)[i] == hex_digit(nibble(a.value, j)));
        assert(hyphenated(b.value)[i] == hex_digit(nibble(b.value, j)));
        lemma_leading_step(a.value, j as nat);
        lemma_leading_step(b.value, j as nat);
    }
    lemma_leading_agree(a.value, b.value, 32);
    assert(pow16(0) == 1);
    assert(leading(a.value, 32) == a.value as int / 1);
    assert(leading(b.value, 32) == b.value as int / 1);
    assert(a.value == b.value);
}

} // verus!
