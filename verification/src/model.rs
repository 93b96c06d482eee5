//! The handler as a function on the guest's state.
//!
//! A trap is described by three values: the handler's payload, the guest's
//! registers and the guest's memory. The functions here say what the handler
//! answers and what memory holds afterwards.

use vstd::bytes::{spec_u64_from_le_bytes, spec_u64_to_le_bytes};
use vstd::prelude::*;

use crate::layout::{A0, A1, A7, LOAD_CODE, MEMORY_SIZE};
use crate::machine::{overwritten, store_verdict, stored_len, MemoryError};

verus! {

/// How many bytes are handed out when `requested` are asked for and
/// `available` are there: the smaller of the two.
pub open spec fn granted_len(available: nat, requested: u64) -> nat {
    if requested <= available {
        requested as nat
    } else {
        available
    }
}

/// The bytes handed out for a request: the payload's first `granted_len`.
pub open spec fn injected(payload: Seq<u8>, requested: u64) -> Seq<u8> {
    payload.take(granted_len(payload.len(), requested) as int)
}

/// The byte count that the guest left at `size_addr`, little-endian.
pub open spec fn requested_size(memory: Seq<u8>, size_addr: u64) -> u64 {
    spec_u64_from_le_bytes(memory.subrange(size_addr as int, size_addr + 8))
}

/// What the handler answers to a trap.
///
/// `Ok(false)` declines a call code that is not `LOAD_CODE`. Otherwise the
/// request is read through `a1`, which fails if its eight bytes do not lie in
/// memory; then the granted bytes are stored at `a0`, which fails if there is
/// one that does not lie in memory. The count is written back over the
/// request, where a word was just read, and the answer is `Ok(true)`.
pub open spec fn ecall_result(payload: Seq<u8>, registers: Seq<u64>, memory: Seq<u8>) -> Result<
    bool,
    MemoryError,
> {
    let dest = registers[A0 as int];
    let size_addr = registers[A1 as int];
    if registers[A7 as int] != LOAD_CODE {
        Ok(false)
    } else if size_addr + 8 > MEMORY_SIZE {
        Err(MemoryError::OutOfBound)
    } else {
        match store_verdict(dest, injected(payload, requested_size(memory, size_addr)).len()) {
            Ok(()) => Ok(true),
            Err(e) => Err(e),
        }
    }
}

/// What guest memory holds after a trap.
///
/// It is untouched when the call is declined or the request cannot be read.
/// Otherwise the granted bytes are written from `a0` on, as far as they lie in
/// memory, and if all of them did, their count is written over the request.
pub open spec fn ecall_memory(payload: Seq<u8>, registers: Seq<u64>, memory: Seq<u8>) -> Seq<u8> {
    let dest = registers[A0 as int];
    let size_addr = registers[A1 as int];
    if registers[A7 as int] != LOAD_CODE || size_addr + 8 > MEMORY_SIZE {
        memory
    } else {
        let chunk = injected(payload, requested_size(memory, size_addr));
        let copied = overwritten(
            memory,
            dest as int,
            chunk.take(stored_len(dest, chunk.len()) as int),
        );
        if store_verdict(dest, chunk.len()) is Ok {
            overwritten(copied, size_addr as int, spec_u64_to_le_bytes(chunk.len() as u64))
        } else {
            copied
        }
    }
}

} // verus!
