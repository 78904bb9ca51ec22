//! Padding of responses to whole blocks, so that the length of a response
//! tells an observer little about what it holds.

use vstd::prelude::*;
use crate::constants::RESPONSE_BLOCK_SIZE;

verus! {

/// The number of zero bytes that bring a message of `len` bytes up to a
/// multiple of `block_size`.
pub open spec fn padding_needed(len: int, block_size: int) -> int
    recommends
        block_size > 0,
{
    if len % block_size == 0 {
        0
    } else {
        block_size - len % block_size
    }
}

/// `message` followed by the zero bytes that fill its last block.
pub open spec fn zero_padded(message: Seq<u8>, block_size: int) -> Seq<u8>
    recommends
        block_size > 0,
{
    message + Seq::new(padding_needed(message.len() as int, block_size) as nat, |i: int| 0u8)
}

/// A padded message fills whole blocks.
pub proof fn lemma_zero_padded_fills_blocks(message: Seq<u8>, block_size: int)
    requires
        block_size > 0,
    ensures
        (zero_padded(message, block_size).len() as int) % block_size == 0,
        message.len() <= zero_padded(message, block_size).len() < message.len() + block_size,
{
    let len = message.len() as int;
    if len % block_size != 0 {
        assert((len + (block_size - len % block_size)) % block_size == 0) by (nonlinear_arith)
            requires
                block_size > 0,
                len >= 0,
        ;
    }
}

/// Appends zero bytes to `message` until its length is a multiple of
/// `block_size`.
pub fn pad_to_block(message: &mut Vec<u8>, block_size: usize)
    requires
        block_size > 0,
    ensures
        final(message)@ == zero_padded(old(message)@, block_size as int),
{
    let ghost initial = message@;
    let surplus = message.len() % block_size;
    if surplus == 0 {
        assert(message@ =~= zero_padded(initial, block_size as int));
        return ;
    }
    let missing = block_size - surplus;
    let mut added: usize = 0;
    while added < missing
        invariant
            added <= missing,
            missing < block_size,
            message@ == initial + Seq::new(added as nat, |i: int| 0u8),
        decreases missing - added,
    {
        message.push(0u8);
        added += 1;
        assert(message@ =~= initial + Seq::new(added as nat, |i: int| 0u8));
    }
}

/// Pads a serialised response to the block size that all responses share.
pub fn pad_response(response: &mut Vec<u8>)
    ensures
        final(response)@ == zero_padded(old(response)@, RESPONSE_BLOCK_SIZE as int),
{
    pad_to_block(response, RESPONSE_BLOCK_SIZE)
}

} // verus!
