//! Targets, the numbers below which the hash of a share has to be.
use primitive_types::U256;
use vstd::arithmetic::power::pow;
use vstd::prelude::*;

verus! {

/// The number that bytes stand for, the least significant first.
pub open spec fn le_value(bytes: Seq<u8>) -> nat
    decreases bytes.len(),
{
    if bytes.len() == 0 {
        0
    } else {
        bytes[0] as nat + 256 * le_value(bytes.skip(1))
    }
}

/// The largest number of 256 bits.
pub open spec fn max_value() -> int {
    pow(256, 32) - 1
}

/// Calls `U256::from` of `primitive_types` on a number of 128 bits, and turns the result into
/// bytes: they stand for the same number.
#[verifier::external_body]
fn wide(x: u128) -> (bytes: [u8; 32])
    ensures
        le_value(bytes@) == x,
{
    U256::from(x).to_little_endian()
}

/// Calls `U256::saturating_sub` of `primitive_types`, between conversions from and to bytes: the
/// difference of the two numbers, or zero where the second is the larger.
#[verifier::external_body]
fn saturating_sub(a: [u8; 32], b: [u8; 32]) -> (difference: [u8; 32])
    ensures
        le_value(difference@) == if le_value(a@) >= le_value(b@) {
            le_value(a@) - le_value(b@)
        } else {
            0
        },
{
    U256::from_little_endian(&a).saturating_sub(U256::from_little_endian(&b)).to_little_endian()
}

/// Divides two `U256` of `primitive_types`, between conversions from and to bytes: the quotient,
/// rounded down.
#[verifier::external_body]
fn divide(a: [u8; 32], b: [u8; 32]) -> (quotient: [u8; 32])
    requires
        le_value(b@) != 0,
    ensures
        le_value(quotient@) == le_value(a@) / le_value(b@),
{
    (U256::from_little_endian(&a) / U256::from_little_endian(&b)).to_little_endian()
}

/// Bytes with all bits set stand for one less than the next power of 256.
proof fn lemma_all_ones(n: nat)
    ensures
        le_value(Seq::new(n, |i: int| 255u8)) + 1 == pow(256, n),
    decreases n,
{
    reveal(pow);
    let ones = Seq::new(n, |i: int| 255u8);
    if n > 0 {
        let rest = Seq::new((n - 1) as nat, |i: int| 255u8);
        lemma_all_ones((n - 1) as nat);
        assert(ones.skip(1) =~= rest);
    }
}

/// The number of 128 bits after the given one, if there is one.
pub open spec fn successor(hashes: u128) -> int {
    if hashes == u128::MAX {
        hashes as int
    } else {
        hashes + 1
    }
}

/// The target that is met once in the given number of hashes, on average.
pub open spec fn target_for(hashes: u128) -> int {
    (max_value() - hashes) / successor(hashes)
}

/// The target for a downstream of which a share is expected once in the given number of hashes,
/// the least significant byte first.
pub fn hash_rate_to_target(hashes: u128) -> (target: [u8; 32])
    ensures
        le_value(target@) == target_for(hashes),
{
    let max: [u8; 32] = [255u8;32];
    proof {
        lemma_all_ones(32);
        assert(max@ =~= Seq::new(32, |i: int| 255u8));
        lemma_fits(hashes);
    }
    let numerator: [u8; 32] = saturating_sub(max, wide(hashes));
    divide(numerator, wide(hashes.saturating_add(1)))
}

/// A number of 128 bits is less than one of 256 bits can be.
proof fn lemma_fits(x: u128)
    ensures
        x < max_value(),
{
    vstd::arithmetic::power::lemma_pow_adds(256, 16, 16);
    vstd::arithmetic::power::lemma_pow_positive(256, 16);
    reveal_with_fuel(pow, 17);
    assert(pow(256, 16) == 0x1_0000_0000_0000_0000_0000_0000_0000_0000);
    assert(pow(256, 16) * pow(256, 16) >= 2 * pow(256, 16)) by (nonlinear_arith)
        requires
            pow(256, 16) >= 2,
    ;
}

/// The more hashes a share is to take, the harder its target is to meet, or as hard.
pub proof fn law_more_hashes_harder_target(fewer: u128, more: u128)
    requires
        fewer <= more,
    ensures
        target_for(more) <= target_for(fewer),
{
    lemma_fits(fewer);
    lemma_fits(more);
    vstd::arithmetic::div_mod::lemma_div_is_ordered(
        max_value() - more,
        max_value() - fewer,
        successor(more),
    );
    vstd::arithmetic::div_mod::lemma_div_is_ordered_by_denominator(
        max_value() - fewer,
        successor(fewer),
        successor(more),
    );
}

/// A target is as easy as it can be for its number of hashes: that many and one more of its size fit
/// into what is left of all numbers, and not of the next larger size. For the largest number of
/// hashes there is not one more.
pub proof fn law_target_is_the_largest(hashes: u128)
    ensures
        target_for(hashes) >= 0,
        hashes < u128::MAX ==> target_for(hashes) * (hashes + 1) <= pow(256, 32) - 1 - hashes < (
        target_for(hashes) + 1) * (hashes + 1),
        hashes == u128::MAX ==> target_for(hashes) * hashes <= pow(256, 32) - 1 - hashes < (
        target_for(hashes) + 1) * hashes,
{
    lemma_fits(hashes);
    let numerator = max_value() - hashes;
    let divisor = successor(hashes);
    vstd::arithmetic::div_mod::lemma_fundamental_div_mod(numerator, divisor);
    vstd::arithmetic::div_mod::lemma_mod_bound(numerator, divisor);
    vstd::arithmetic::div_mod::lemma_div_pos_is_pos(numerator, divisor);
    assert((numerator / divisor) * divisor == divisor * (numerator / divisor)) by (nonlinear_arith);
    assert((numerator / divisor + 1) * divisor == divisor * (numerator / divisor) + divisor)
        by (nonlinear_arith);
}

/// The number that bytes stand for is made of them from the front, each worth 256 times the one
/// before.
pub proof fn law_bytes_stand_for_a_number(first: u8, rest: Seq<u8>)
    ensures
        le_value(Seq::empty()) == 0,
        le_value(seq![first] + rest) == first + 256 * le_value(rest),
{
    assert((seq![first] + rest).skip(1) =~= rest);
}

/// The target for any number of hashes is the largest of which that many and one more fit into what
/// is left of all numbers, and the target for more hashes is no larger. For the largest number of
/// hashes there is not one more.
pub proof fn law_target_for_a_hash_rate(
    hashes: u128,
    target: [u8; 32],
    more: u128,
    harder: [u8; 32],
)
    requires
        hashes <= more,
        call_ensures(hash_rate_to_target, (hashes,), target),
        call_ensures(hash_rate_to_target, (more,), harder),
    ensures
        hashes < u128::MAX ==> le_value(target@) * (hashes + 1) <= pow(256, 32) - 1 - hashes < (
        le_value(target@) + 1) * (hashes + 1),
        hashes == u128::MAX ==> le_value(target@) * hashes <= pow(256, 32) - 1 - hashes < (le_value(
            target@,
        ) + 1) * hashes,
        le_value(harder@) <= le_value(target@),
{
    law_target_is_the_largest(hashes);
    law_more_hashes_harder_target(hashes, more);
}

} // verus!
