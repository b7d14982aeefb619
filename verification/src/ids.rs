//! 128-bit identifiers and their text form.

use vstd::prelude::*;
use vstd::arithmetic::power::pow;
use crate::text::hex_char;

verus! {

broadcast use vstd::string::group_string_axioms;

/// The `j`-th hexadecimal digit of `id`, counted from the most significant of
/// its 32 digits.
pub open spec fn id_digit(id: u128, j: int) -> nat {
    ((id as int / pow(16, (31 - j) as nat)) % 16) as nat
}

/// A hyphen stands at this position of the text form.
pub open spec fn hyphen_at(i: int) -> bool {
    i == 8 || i == 13 || i == 18 || i == 23
}

/// How many hyphens stand before position `i`.
pub open spec fn hyphens_before(i: int) -> int {
    if i <= 8 {
        0
    } else if i <= 13 {
        1
    } else if i <= 18 {
        2
    } else if i <= 23 {
        3
    } else {
        4
    }
}

/// The text form of an identifier: 32 lower-case hexadecimal digits in groups
/// of 8, 4, 4, 4 and 12, with hyphens between the groups.
pub open spec fn id_form(id: u128) -> Seq<char> {
    Seq::new(
        36,
        |i: int|
            if hyphen_at(i) {
                '-'
            } else {
                hex_char(id_digit(id, i - hyphens_before(i)))
            },
    )
}

/// An outcome of reading an identifier, with the message as plain text.
pub open spec fn parse_outcome(r: Result<u128, String>) -> Result<u128, Seq<char>> {
    match r {
        Ok(id) => Ok(id),
        Err(message) => Err(message@),
    }
}

/// What `uuid::Uuid::parse_str` makes of a text: the identifier, or the
/// message of the error.
pub uninterp spec fn parsed_id(text: Seq<char>) -> Result<u128, Seq<char>>;

/// `uuid::Uuid`'s `Display`: writes the identifier in its text form.
#[verifier::external_body]
pub(crate) fn id_text(id: u128) -> (r: String)
    ensures
        r@ == id_form(id),
{
    uuid::Uuid::from_u128(id).to_string()
}

/// `uuid::Uuid::parse_str`: reads an identifier, and gives the message of the
/// error otherwise. The outcome depends on the text alone, and the text form
/// of an identifier is read back as that identifier.
#[verifier::external_body]
pub(crate) fn parse_id(text: &str) -> (r: Result<u128, String>)
    ensures
        parse_outcome(r) == parsed_id(text@),
        forall|id: u128| text@ == #[trigger] id_form(id) ==> r is Ok && r->Ok_0 == id,
{
    match uuid::Uuid::parse_str(text) {
        Ok(id) => Ok(id.as_u128()),
        Err(e) => Err(e.to_string()),
    }
}

/// `uuid::Uuid::new_v4`: a random identifier. Nothing is said of its value.
#[verifier::external_body]
pub(crate) fn fresh_id() -> u128 {
    uuid::Uuid::new_v4().as_u128()
}

// ── Laws ────────────────────────────────────────────────────

proof fn lemma_pow_16_32()
    ensures
        pow(16, 32) == 0x1_0000_0000_0000_0000_0000_0000_0000_0000int,
{
    vstd::arithmetic::power::lemma_pow_adds(16, 4, 4);
    vstd::arithmetic::power::lemma_pow_adds(16, 8, 8);
    vstd::arithmetic::power::lemma_pow_adds(16, 16, 16);
    reveal_with_fuel(pow, 5);
    assert(pow(16, 4) == 0x1_0000);
    assert(pow(16, 8) == 0x1_0000int * 0x1_0000int);
    assert(pow(16, 16) == 0x1_0000_0000int * 0x1_0000_0000int);
    assert(pow(16, 32) == 0x1_0000_0000_0000_0000int * 0x1_0000_0000_0000_0000int);
}

/// The text form of an identifier holds no separator of paths.
pub proof fn lemma_id_form_is_one_name(id: u128)
    ensures
        forall|i: int| 0 <= i < id_form(id).len() ==> #[trigger] id_form(id)[i] != '/',
{
    assert forall|i: int| 0 <= i < id_form(id).len() implies #[trigger] id_form(id)[i] != '/' by {
        if !hyphen_at(i) {
            assert(id_digit(id, i - hyphens_before(i)) < 16);
        }
    }
}

/// The position of digit `j` in the text form.
spec fn digit_place(j: int) -> int {
    if j < 8 {
        j
    } else if j < 12 {
        j + 1
    } else if j < 16 {
        j + 2
    } else if j < 20 {
        j + 3
    } else {
        j + 4
    }
}

proof fn lemma_same_digit(a: u128, b: u128, j: int)
    requires
        id_form(a) == id_form(b),
        0 <= j < 32,
    ensures
        id_digit(a, j) == id_digit(b, j),
{
    let i = digit_place(j);
    assert(!hyphen_at(i) && i - hyphens_before(i) == j);
    assert(id_form(a)[i] == hex_char(id_digit(a, j)));
    assert(id_form(b)[i] == hex_char(id_digit(b, j)));
    assert(id_digit(a, j) < 16 && id_digit(b, j) < 16);
}

proof fn lemma_same_leading(a: u128, b: u128, j: nat)
    requires
        id_form(a) == id_form(b),
        j <= 32,
    ensures
        a as int / pow(16, (32 - j) as nat) == b as int / pow(16, (32 - j) as nat),
    decreases j,
{
    if j == 0 {
        lemma_pow_16_32();
    } else {
        let k = (j - 1) as nat;
        lemma_same_leading(a, b, k);
        lemma_same_digit(a, b, k as int);
        let p = pow(16, (32 - j) as nat);
        vstd::arithmetic::power::lemma_pow_positive(16, (32 - j) as nat);
        vstd::arithmetic::power::lemma_pow1(16);
        vstd::arithmetic::power::lemma_pow_adds(16, (32 - j) as nat, 1);
        assert(pow(16, (32 - k) as nat) == p * 16);
        vstd::arithmetic::div_mod::lemma_div_denominator(a as int, p, 16);
        vstd::arithmetic::div_mod::lemma_div_denominator(b as int, p, 16);
        let x = a as int / p;
        let y = b as int / p;
        assert(x / 16 == y / 16);
        assert(x % 16 == y % 16);
    }
}

/// Different identifiers have different text forms.
pub proof fn law_id_forms_are_distinct(a: u128, b: u128)
    requires
        id_form(a) == id_form(b),
    ensures
        a == b,
{
    lemma_same_leading(a, b, 32);
    vstd::arithmetic::power::lemma_pow0(16);
}

} // verus!
