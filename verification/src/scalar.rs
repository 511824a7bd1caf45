//! The numbers behind the bytes: how 32 bytes stand for a field element or
//! for the scalar of a private key, how the engine hands a field element
//! back, and what the sum and the difference of two private keys are.

use vstd::prelude::*;
use vstd::arithmetic::div_mod::lemma_small_mod;

verus! {

/// The number of four 64-bit words, the most significant first.
pub open spec fn four_words(first: nat, second: nat, third: nat, fourth: nat) -> nat {
    ((first * 0x1_0000_0000_0000_0000 + second) * 0x1_0000_0000_0000_0000 + third)
        * 0x1_0000_0000_0000_0000 + fourth
}

/// The prime of the field that a private key is first reduced in.
pub open spec fn field_prime() -> nat {
    four_words(0x8fb501e34aa387f9, 0xaa6fecb86184dc21, 0xee5b88d120b5b59e, 0x185cac6c5e089667)
}

/// The order of the group of curve points, the modulus of private key
/// arithmetic. It is smaller than the field prime.
pub open spec fn group_order() -> nat {
    four_words(0x8fb501e34aa387f9, 0xaa6fecb86184dc21, 0x2e8d8e12f82b3924, 0x1a2ef45b57ac7261)
}

/// The number that bytes stand for, most significant byte first.
pub open spec fn big_endian(bytes: Seq<u8>) -> nat
    decreases bytes.len(),
{
    if bytes.len() == 0 {
        0
    } else {
        big_endian(bytes.drop_last()) * 256 + bytes.last() as nat
    }
}

/// The `len` bytes that stand for a number, most significant byte first. A
/// number that needs more bytes loses its upper part.
pub open spec fn big_endian_bytes(value: nat, len: nat) -> Seq<u8>
    decreases len,
{
    if len == 0 {
        Seq::empty()
    } else {
        big_endian_bytes(value / 256, (len - 1) as nat).push((value % 256) as u8)
    }
}

/// The 32 bytes of a field element as the engine hands them back: those of
/// the number that the bytes stand for, reduced by the field prime.
pub open spec fn reduced(element: Seq<u8>) -> Seq<u8> {
    big_endian_bytes(big_endian(element) % field_prime(), 32)
}

/// Field elements of 32 bytes each, one after the other, as the engine hands
/// them back: each of them reduced.
pub open spec fn reduced_elements(elements: Seq<u8>) -> Seq<u8>
    decreases elements.len(),
{
    if elements.len() < 32 {
        Seq::empty()
    } else {
        reduced(elements.subrange(0, 32)) + reduced_elements(
            elements.subrange(32, elements.len() as int),
        )
    }
}

/// Whether the bytes are field elements of 32 bytes each, every one of them
/// below the field prime.
pub open spec fn elements_are_reduced(elements: Seq<u8>) -> bool
    decreases elements.len(),
{
    if elements.len() < 32 {
        elements.len() == 0
    } else {
        big_endian(elements.subrange(0, 32)) < field_prime() && elements_are_reduced(
            elements.subrange(32, elements.len() as int),
        )
    }
}

/// The scalar that the engine takes 32 bytes of a private key for: the
/// number they stand for, reduced by the field prime and then by the group
/// order.
pub open spec fn scalar_of(private_key: Seq<u8>) -> nat {
    (big_endian(private_key) % field_prime()) % group_order()
}

/// The sum of two private keys: the sum of their scalars, reduced by the
/// group order, as 32 bytes.
pub open spec fn private_key_sum(first: Seq<u8>, second: Seq<u8>) -> Seq<u8> {
    big_endian_bytes((scalar_of(first) + scalar_of(second)) % group_order(), 32)
}

/// The difference of two private keys: the first scalar less the second,
/// reduced by the group order, as 32 bytes.
pub open spec fn private_key_difference(first: Seq<u8>, second: Seq<u8>) -> Seq<u8> {
    big_endian_bytes(
        ((scalar_of(first) + group_order() - scalar_of(second)) % (group_order() as int)) as nat,
        32,
    )
}

/// Whether a number can be written in `len` bytes.
pub open spec fn fits(value: nat, len: nat) -> bool
    decreases len,
{
    if len == 0 {
        value == 0
    } else {
        fits(value / 256, (len - 1) as nat)
    }
}

/// Bytes are the bytes of the number that they stand for.
pub proof fn lemma_bytes_of_big_endian(bytes: Seq<u8>)
    ensures
        big_endian_bytes(big_endian(bytes), bytes.len()) == bytes,
        fits(big_endian(bytes), bytes.len()),
    decreases bytes.len(),
{
    if bytes.len() > 0 {
        lemma_bytes_of_big_endian(bytes.drop_last());
    }
}

/// A number that can be written in `len` bytes is the number that its bytes
/// stand for.
pub proof fn lemma_big_endian_of_bytes(value: nat, len: nat)
    requires
        fits(value, len),
    ensures
        big_endian(big_endian_bytes(value, len)) == value,
        big_endian_bytes(value, len).len() == len,
    decreases len,
{
    if len > 0 {
        lemma_big_endian_of_bytes(value / 256, (len - 1) as nat);
        let upper = big_endian_bytes(value / 256, (len - 1) as nat);
        let bytes = big_endian_bytes(value, len);
        assert(bytes.drop_last() =~= upper);
    }
}

/// A scalar, being below the group order, can be written in 32 bytes.
pub proof fn lemma_scalar_fits(value: nat)
    requires
        value < group_order(),
    ensures
        fits(value, 32),
{
    reveal_with_fuel(fits, 33);
}

/// Adding back what was subtracted gives the first private key again, if
/// that key is reduced: if its 32 bytes stand for a number below the group
/// order.
pub proof fn lemma_adding_back_what_was_subtracted(first: Seq<u8>, second: Seq<u8>)
    requires
        first.len() == 32,
        big_endian(first) < group_order(),
    ensures
        private_key_sum(private_key_difference(first, second), second) == first,
{
    let order = group_order();
    let a = big_endian(first);
    let b = scalar_of(second);
    lemma_small_mod(a, field_prime());
    lemma_small_mod(a, order);
    let d = ((a + order - b) % (order as int)) as nat;
    lemma_scalar_fits(d);
    lemma_big_endian_of_bytes(d, 32);
    lemma_small_mod(d, field_prime());
    lemma_small_mod(d, order);
    assert((d + b) % order == a) by {
        if a >= b {
            lemma_small_mod((a - b) as nat, order);
            assert(d == a - b) by {
                vstd::arithmetic::div_mod::lemma_mod_add_multiples_vanish(a - b, order as int);
            }
            lemma_small_mod(a, order);
        } else {
            lemma_small_mod((a + order - b) as nat, order);
            vstd::arithmetic::div_mod::lemma_mod_add_multiples_vanish(a as int, order as int);
        }
    }
    lemma_bytes_of_big_endian(first);
}

/// The engine hands a field element of 32 bytes back as it was given, if it
/// is below the field prime.
pub proof fn lemma_reduced_element_stays(element: Seq<u8>)
    requires
        elements_are_reduced(element),
        element.len() == 32,
    ensures
        reduced(element) == element,
{
    assert(element.subrange(0, 32) =~= element);
    lemma_small_mod(big_endian(element), field_prime());
    lemma_bytes_of_big_endian(element);
}

/// The engine hands field elements back as they were given, if each of them
/// is below the field prime.
pub proof fn lemma_reduced_elements_stay(elements: Seq<u8>)
    requires
        elements_are_reduced(elements),
    ensures
        reduced_elements(elements) == elements,
    decreases elements.len(),
{
    if elements.len() >= 32 {
        let first = elements.subrange(0, 32);
        let rest = elements.subrange(32, elements.len() as int);
        lemma_small_mod(big_endian(first), field_prime());
        lemma_bytes_of_big_endian(first);
        lemma_reduced_elements_stay(rest);
        assert(first + rest =~= elements);
    } else {
        assert(reduced_elements(elements) =~= elements);
    }
}

} // verus!
