//! Elements of the BN254 scalar field, held as four 64-bit limbs in
//! little-endian order. The arithmetic itself is done by `ark_bn254`;
//! this module states what each operation returns in terms of the
//! mathematical value of an element.

use vstd::prelude::*;
use core::str::FromStr;

verus! {

/// The order of the BN254 scalar field: a prime a little below 2^254.
pub open spec fn fr_order() -> nat {
    21888242871839275222246405745257275088548364400416034343698204186575808495617nat
}

/// A scalar-field element in canonical form: its value is below `fr_order()`.
#[derive(Clone, Copy, Debug, PartialEq, Eq, Structural)]
pub struct Fe {
    pub(crate) l0: u64,
    pub(crate) l1: u64,
    pub(crate) l2: u64,
    pub(crate) l3: u64,
}

impl Fe {
    /// The mathematical value of the element, read from the limbs.
    pub closed spec fn val(self) -> nat {
        (self.l0 + 0x10000000000000000 * (self.l1
            + 0x10000000000000000 * (self.l2
                + 0x10000000000000000 * self.l3))) as nat
    }

    /// Canonical form: every element the library hands out stays below the
    /// field order, so limb patterns and values correspond one to one.
    #[verifier::type_invariant]
    pub open spec fn inv(self) -> bool {
        self.val() < fr_order()
    }
}

/// Two canonical elements with one value have the same limbs.
pub proof fn lemma_fe_val_injective(a: Fe, b: Fe)
    requires
        a.val() == b.val(),
    ensures
        a == b,
{
    let base: int = 0x10000000000000000;
    let ta: int = a.l1 + base * (a.l2 + base * a.l3);
    let tb: int = b.l1 + base * (b.l2 + base * b.l3);
    vstd::arithmetic::div_mod::lemma_fundamental_div_mod_converse(
        a.val() as int, base, ta, a.l0 as int);
    vstd::arithmetic::div_mod::lemma_fundamental_div_mod_converse(
        b.val() as int, base, tb, b.l0 as int);
    assert(a.l0 == b.l0 && ta == tb);
    let ua: int = a.l2 + base * a.l3;
    let ub: int = b.l2 + base * b.l3;
    vstd::arithmetic::div_mod::lemma_fundamental_div_mod_converse(ta, base, ua, a.l1 as int);
    vstd::arithmetic::div_mod::lemma_fundamental_div_mod_converse(tb, base, ub, b.l1 as int);
    assert(a.l1 == b.l1 && ua == ub);
    vstd::arithmetic::div_mod::lemma_fundamental_div_mod_converse(
        ua, base, a.l3 as int, a.l2 as int);
    vstd::arithmetic::div_mod::lemma_fundamental_div_mod_converse(
        ub, base, b.l3 as int, b.l2 as int);
    assert(a.l2 == b.l2 && a.l3 == b.l3);
}

/// Relies on `ark_ff`'s `From<u64>`: the argument reduced into the field,
/// and the field order is above 2^64, so the value is the argument itself.
#[verifier::external_body]
pub fn fe_from_u64(n: u64) -> (r: Fe)
    ensures
        r.val() == n as nat,
{
    let b = ark_ff::PrimeField::into_bigint(ark_bn254::Fr::from(n)).0;
    Fe { l0: b[0], l1: b[1], l2: b[2], l3: b[3] }
}

/// Relies on `ark_ff`'s field addition: the sum of the two values,
/// reduced by the field order.
#[verifier::external_body]
pub fn fe_add(a: &Fe, b: &Fe) -> (r: Fe)
    ensures
        r.val() == (a.val() + b.val()) % fr_order(),
{
    let x = <ark_bn254::Fr as ark_ff::PrimeField>::from_bigint(ark_ff::BigInt::new([a.l0, a.l1, a.l2, a.l3])).unwrap();
    let y = <ark_bn254::Fr as ark_ff::PrimeField>::from_bigint(ark_ff::BigInt::new([b.l0, b.l1, b.l2, b.l3])).unwrap();
    let s = ark_ff::PrimeField::into_bigint(x + y).0;
    Fe { l0: s[0], l1: s[1], l2: s[2], l3: s[3] }
}

/// Relies on `ark_ff`'s field multiplication: the product of the two
/// values, reduced by the field order.
#[verifier::external_body]
pub fn fe_mul(a: &Fe, b: &Fe) -> (r: Fe)
    ensures
        r.val() == (a.val() * b.val()) % fr_order(),
{
    let x = <ark_bn254::Fr as ark_ff::PrimeField>::from_bigint(ark_ff::BigInt::new([a.l0, a.l1, a.l2, a.l3])).unwrap();
    let y = <ark_bn254::Fr as ark_ff::PrimeField>::from_bigint(ark_ff::BigInt::new([b.l0, b.l1, b.l2, b.l3])).unwrap();
    let p = ark_ff::PrimeField::into_bigint(x * y).0;
    Fe { l0: p[0], l1: p[1], l2: p[2], l3: p[3] }
}

/// A decimal digit.
pub open spec fn is_dec_digit(c: char) -> bool {
    '0' <= c && c <= '9'
}

/// The numeric value of a decimal digit.
pub open spec fn dec_digit_val(c: char) -> nat {
    (c as u32 - '0' as u32) as nat
}

/// The number a sequence of decimal digits denotes.
pub open spec fn dec_val(s: Seq<char>) -> nat
    decreases s.len(),
{
    if s.len() == 0 {
        0
    } else {
        dec_val(s.drop_last()) * 10 + dec_digit_val(s.last())
    }
}

/// The strings `ark_ff`'s parser takes: at least one digit, nothing but
/// digits, and no leading zero except for "0" itself.
pub open spec fn is_dec_literal(s: Seq<char>) -> bool {
    &&& s.len() > 0
    &&& forall|i: int| 0 <= i < s.len() ==> is_dec_digit(s[i])
    &&& (s[0] != '0' || s.len() == 1)
}

/// Relies on `ark_ff`'s `FromStr` for prime-field elements: it accepts
/// exactly the decimal literals above (digits are folded into the field
/// as they are read), and returns the denoted number reduced by the
/// field order.
#[verifier::external_body]
pub(crate) fn fe_parse(s: &str) -> (r: Option<Fe>)
    ensures
        r is Some <==> is_dec_literal(s@),
        r matches Some(f) ==> f.val() == dec_val(s@) % fr_order(),
{
    match <ark_bn254::Fr as FromStr>::from_str(s) {
        Ok(x) => {
            let b = ark_ff::PrimeField::into_bigint(x).0;
            Some(Fe { l0: b[0], l1: b[1], l2: b[2], l3: b[3] })
        },
        Err(_) => None,
    }
}

/// Parse a decimal string as a field element, as the command line hands
/// it in. Anything but a decimal literal is a malformed input.
pub fn parse_field_element(s: &str) -> (r: Result<Fe, crate::ZkError>)
    ensures
        r is Ok <==> is_dec_literal(s@),
        r matches Ok(f) ==> f.val() == dec_val(s@) % fr_order(),
        r is Err ==> crate::res_is_err(r, crate::ZkError::MalformedInput),
{
    match fe_parse(s) {
        Some(f) => Ok(f),
        None => Err(crate::ZkError::MalformedInput),
    }
}

} // verus!
