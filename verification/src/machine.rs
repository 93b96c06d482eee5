//! The boundary to the virtual machine.
//!
//! Nothing in this file is proved. It declares the interpreter's machine type
//! of `ckb-vm`, names the parts of a machine's state that the handler reads or
//! changes, and wraps the four calls the handler makes, each with a contract
//! taken from the machine's source.

use ckb_vm::{CoreMachine, DefaultCoreMachine, Memory, SparseMemory};
use vstd::bytes::{spec_u64_from_le_bytes, spec_u64_to_le_bytes};
use vstd::prelude::*;

use crate::layout::{MEMORY_SIZE, REGISTER_COUNT};

verus! {

/// `ckb_vm::DefaultCoreMachine`: registers, program counter, cycle count and a
/// memory. Opaque here.
#[verifier::external_type_specification]
#[verifier::external_body]
#[verifier::reject_recursive_types(R)]
#[verifier::reject_recursive_types(M)]
pub struct ExDefaultCoreMachine<R, M>(DefaultCoreMachine<R, M>);

/// `ckb_vm::SparseMemory`: 4 MiB of memory that allocates a page when it is
/// first touched. Opaque here.
#[verifier::external_type_specification]
#[verifier::external_body]
#[verifier::reject_recursive_types(R)]
pub struct ExSparseMemory<R>(SparseMemory<R>);

/// The 64-bit interpreter machine over sparse memory.
pub type GuestMachine = DefaultCoreMachine<u64, SparseMemory<u64>>;

/// The general registers of a machine, in index order.
pub uninterp spec fn registers_of(machine: GuestMachine) -> Seq<u64>;

/// The memory a guest sees, byte by byte from address 0. A byte of a page
/// that was never allocated is zero.
pub uninterp spec fn memory_of(machine: GuestMachine) -> Seq<u8>;

/// The cycles a machine has charged so far.
pub uninterp spec fn cycles_of(machine: GuestMachine) -> u64;

/// Why a memory access was refused.
#[derive(Clone, Copy, Debug, PartialEq, Eq, Structural)]
pub enum MemoryError {
    /// The access reaches past the end of guest memory.
    OutOfBound,
    /// Any other error of the virtual machine; no memory access returns it.
    Unexpected,
}

/// What a store of `len` bytes at `addr` returns: it fails exactly when there
/// is a byte to store that does not lie in memory.
pub open spec fn store_verdict(addr: u64, len: nat) -> Result<(), MemoryError> {
    if len == 0 || addr + len <= MEMORY_SIZE {
        Ok(())
    } else {
        Err(MemoryError::OutOfBound)
    }
}

/// How many of `len` bytes a store at `addr` writes: those that lie in
/// memory. A failing store has written them before it fails.
pub open spec fn stored_len(addr: u64, len: nat) -> nat {
    if addr >= MEMORY_SIZE {
        0
    } else if addr + len <= MEMORY_SIZE {
        len
    } else {
        (MEMORY_SIZE - addr) as nat
    }
}

/// `memory` with `bytes` written over it from address `addr` on.
pub open spec fn overwritten(memory: Seq<u8>, addr: int, bytes: Seq<u8>) -> Seq<u8> {
    Seq::new(
        memory.len(),
        |i: int| if addr <= i < addr + bytes.len() { bytes[i - addr] } else { memory[i] },
    )
}

/// `CoreMachine::registers`, indexed: the value of one general register.
/// Indexing panics from `REGISTER_COUNT` on, so such an index is not admitted.
#[verifier::external_body]
pub(crate) fn register(machine: &GuestMachine, index: usize) -> (value: u64)
    requires
        index < REGISTER_COUNT,
    ensures
        value == registers_of(*machine)[index as int],
{
    machine.registers()[index]
}

/// `Memory::load64` on the machine's memory: reads the little-endian word at
/// `addr`. It succeeds exactly when all eight bytes lie in memory and fails
/// with `OutOfBound` otherwise. The call reaches the memory alone, so registers
/// and cycles stay as they were, and the memory a guest sees does too (a page
/// may be allocated).
#[verifier::external_body]
pub(crate) fn load64(machine: &mut GuestMachine, addr: u64) -> (r: Result<u64, MemoryError>)
    ensures
        registers_of(*final(machine)) == registers_of(*old(machine)),
        cycles_of(*final(machine)) == cycles_of(*old(machine)),
        memory_of(*final(machine)) == memory_of(*old(machine)),
        memory_of(*final(machine)).len() == MEMORY_SIZE,
        match r {
            Ok(value) => addr + 8 <= MEMORY_SIZE && value == spec_u64_from_le_bytes(
                memory_of(*old(machine)).subrange(addr as int, addr + 8),
            ),
            Err(e) => addr + 8 > MEMORY_SIZE && e == MemoryError::OutOfBound,
        },
{
    match machine.memory_mut().load64(&addr) {
        Ok(value) => Ok(value),
        Err(ckb_vm::Error::OutOfBound) => Err(MemoryError::OutOfBound),
        Err(_) => Err(MemoryError::Unexpected),
    }
}

/// `Memory::store_bytes` on the machine's memory: copies `bytes` into memory
/// from `addr` on, page by page. What it returns is `store_verdict`; the
/// first `stored_len` bytes are written whether it succeeds or not. The call
/// reaches the memory alone, so registers and cycles stay as they were.
#[verifier::external_body]
pub(crate) fn store_bytes(machine: &mut GuestMachine, addr: u64, bytes: &[u8]) -> (r: Result<
    (),
    MemoryError,
>)
    ensures
        registers_of(*final(machine)) == registers_of(*old(machine)),
        cycles_of(*final(machine)) == cycles_of(*old(machine)),
        memory_of(*final(machine)).len() == MEMORY_SIZE,
        r == store_verdict(addr, bytes@.len()),
        memory_of(*final(machine)) == overwritten(
            memory_of(*old(machine)),
            addr as int,
            bytes@.take(stored_len(addr, bytes@.len()) as int),
        ),
{
    match machine.memory_mut().store_bytes(addr, bytes) {
        Ok(()) => Ok(()),
        Err(ckb_vm::Error::OutOfBound) => Err(MemoryError::OutOfBound),
        Err(_) => Err(MemoryError::Unexpected),
    }
}

/// `Memory::store64` on the machine's memory: writes `value` at `addr`, low
/// byte first, as a store of its eight bytes. What it returns is
/// `store_verdict`; the first `stored_len` of the bytes are written whether it
/// succeeds or not. The call reaches the memory alone, so registers and cycles
/// stay as they were.
#[verifier::external_body]
pub(crate) fn store64(machine: &mut GuestMachine, addr: u64, value: u64) -> (r: Result<
    (),
    MemoryError,
>)
    ensures
        registers_of(*final(machine)) == registers_of(*old(machine)),
        cycles_of(*final(machine)) == cycles_of(*old(machine)),
        memory_of(*final(machine)).len() == MEMORY_SIZE,
        r == store_verdict(addr, 8),
        memory_of(*final(machine)) == overwritten(
            memory_of(*old(machine)),
            addr as int,
            spec_u64_to_le_bytes(value).take(stored_len(addr, 8) as int),
        ),
{
    match machine.memory_mut().store64(&addr, &value) {
        Ok(()) => Ok(()),
        Err(ckb_vm::Error::OutOfBound) => Err(MemoryError::OutOfBound),
        Err(_) => Err(MemoryError::Unexpected),
    }
}

} // verus!
