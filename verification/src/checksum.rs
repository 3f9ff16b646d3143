//! The internet checksum: the ones'-complement of the ones'-complement sum of a
//! message's 16-bit big-endian words.

use vstd::prelude::*;
use vstd::arithmetic::div_mod::lemma_mod_multiples_vanish;
use vstd::slice::slice_subrange;

verus! {

/// Sum of the 16-bit big-endian words of `bytes`, as an unbounded integer. An
/// odd final byte is the high byte of a word whose low byte is zero.
pub open spec fn word_sum(bytes: Seq<u8>) -> nat
    decreases bytes.len(),
{
    if bytes.len() == 0 {
        0
    } else if bytes.len() == 1 {
        bytes[0] as nat * 256
    } else {
        (bytes[0] as nat * 256 + bytes[1] as nat) + word_sum(bytes.skip(2))
    }
}

/// Folds `sum` into 16 bits: whatever lies beyond the low 16 bits is added back
/// into them until nothing is left over.
pub open spec fn end_around_carry(sum: nat) -> nat
    decreases sum,
{
    if sum <= 0xFFFF {
        sum
    } else {
        end_around_carry(sum / 0x1_0000 + sum % 0x1_0000)
    }
}

/// The checksum of `bytes`: the bitwise complement, in 16 bits, of the folded
/// word sum.
pub open spec fn internet_checksum(bytes: Seq<u8>) -> int {
    0xFFFF - end_around_carry(word_sum(bytes))
}

/// A message carries a valid checksum when its words, checksum field included,
/// fold to `0xFFFF`.
pub open spec fn checksum_valid(bytes: Seq<u8>) -> bool {
    end_around_carry(word_sum(bytes)) == 0xFFFF
}

/// The fold has a closed form: zero stays zero, and every other sum lands on
/// the one value in `1..=0xFFFF` that is congruent to it modulo `0xFFFF`.
pub proof fn lemma_end_around_carry_closed_form(sum: nat)
    ensures
        end_around_carry(sum) == if sum == 0 {
            0
        } else {
            (sum - 1) % 0xFFFF + 1
        },
        end_around_carry(sum) <= 0xFFFF,
    decreases sum,
{
    if sum > 0xFFFF {
        let q: nat = sum / 0x1_0000;
        let r: nat = sum % 0x1_0000;
        let folded: nat = q + r;
        assert(sum == 0x1_0000 * q + r);
        lemma_end_around_carry_closed_form(folded);
        assert((sum - 1) % 0xFFFF == (folded - 1) % 0xFFFF) by {
            lemma_mod_multiples_vanish(q as int, folded - 1, 0xFFFF);
            assert(0xFFFF * q + (folded - 1) == sum - 1);
        }
    }
}

/// Folding may be done along the way: the fold of two folded sums is the fold
/// of the two sums added in full.
pub proof fn lemma_end_around_carry_add(a: nat, b: nat)
    ensures
        end_around_carry(end_around_carry(a) + end_around_carry(b)) == end_around_carry(a + b),
{
    let fa: nat = end_around_carry(a);
    let fb: nat = end_around_carry(b);
    lemma_end_around_carry_closed_form(a);
    lemma_end_around_carry_closed_form(b);
    lemma_end_around_carry_closed_form(fa + fb);
    lemma_end_around_carry_closed_form(a + b);
    if a > 0 && b > 0 {
        let ka: int = (a - 1) / 0xFFFF;
        let kb: int = (b - 1) / 0xFFFF;
        assert(a == fa + 0xFFFF * ka);
        assert(b == fb + 0xFFFF * kb);
        assert((a + b - 1) % 0xFFFF == (fa + fb - 1) % 0xFFFF) by {
            lemma_mod_multiples_vanish(ka + kb, fa + fb - 1, 0xFFFF);
            assert(0xFFFF * (ka + kb) + (fa + fb - 1) == a + b - 1);
        }
    }
}

/// Words do not straddle an even boundary: behind an even number of bytes the
/// sum of a concatenation is the sum of the sums.
pub proof fn lemma_word_sum_concat(front: Seq<u8>, back: Seq<u8>)
    requires
        front.len() % 2 == 0,
    ensures
        word_sum(front + back) == word_sum(front) + word_sum(back),
    decreases front.len(),
{
    if front.len() == 0 {
        assert(front + back =~= back);
    } else {
        assert((front + back).skip(2) =~= front.skip(2) + back);
        lemma_word_sum_concat(front.skip(2), back);
    }
}

/// Longest block handed to the outside routine in one call: the largest even
/// length under the 64 bytes from which that routine changes its method.
const BLOCK_LEN: usize = 62;

/// Calls `internet_checksum::checksum` on one block of fewer than 64 bytes.
///
/// Claimed of it: the two bytes it returns are the high and the low byte of
/// the checksum of the block, whatever the byte order of the machine. Below 64
/// bytes that routine adds one native-order word at a time into a wide
/// accumulator with checked additions, folds the carries and complements;
/// swapping the bytes of every word swaps the bytes of the folded sum, so the
/// native-order result written in native order is the big-endian result
/// written in big-endian order. From 64 bytes on it takes another path, whose
/// carry is added unchecked; nothing is claimed of that path and no block of
/// such a length is handed over.
#[verifier::external_body]
fn block_checksum(block: &[u8]) -> (sum: [u8; 2])
    requires
        block@.len() < 64,
    ensures
        sum[0] as int == internet_checksum(block@) / 256,
        sum[1] as int == internet_checksum(block@) % 256,
{
    internet_checksum::checksum(block)
}

/// Computes the checksum of `message`.
///
/// A sender calls this on the message with its checksum field set to zero and
/// writes the result into that field.
pub fn compute(message: &[u8]) -> (checksum: u16)
    ensures
        checksum as int == internet_checksum(message@),
{
    let mut folded: u32 = 0;
    let mut done: usize = 0;
    while done < message.len()
        invariant
            done <= message.len(),
            done % 2 == 0 || done == message.len(),
            folded as nat == end_around_carry(word_sum(message@.take(done as int))),
            folded <= 0xFFFF,
        decreases message.len() - done,
    {
        let end: usize = if message.len() - done > BLOCK_LEN {
            done + BLOCK_LEN
        } else {
            message.len()
        };
        let block = slice_subrange(message, done, end);
        let sum = block_checksum(block);
        proof {
            lemma_end_around_carry_closed_form(word_sum(block@));
        }
        let block_folded: u32 = 0xFFFF - (sum[0] as u32 * 256 + sum[1] as u32);
        let total: u32 = folded + block_folded;
        proof {
            let front = message@.take(done as int);
            assert(message@.take(end as int) =~= front + block@);
            lemma_word_sum_concat(front, block@);
            lemma_end_around_carry_add(word_sum(front), word_sum(block@));
            lemma_end_around_carry_closed_form(total as nat);
        }
        folded = if total > 0xFFFF {
            total - 0xFFFF
        } else {
            total
        };
        done = end;
    }
    assert(message@.take(done as int) =~= message@);
    (0xFFFF - folded) as u16
}

/// Checks the checksum that `message` carries: true exactly when the words of
/// the message as received, checksum field included, fold to `0xFFFF`.
pub fn verify(message: &[u8]) -> (valid: bool)
    ensures
        valid == checksum_valid(message@),
{
    compute(message) == 0
}

} // verus!
