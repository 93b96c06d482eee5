//! The data-injection handler.

use vstd::bytes::lemma_auto_spec_u64_to_from_le_bytes;
use vstd::prelude::*;
use vstd::slice::slice_subrange;

use crate::layout::{A0, A1, A7, LOAD_CODE, MEMORY_SIZE};
use crate::machine::{
    cycles_of, load64, memory_of, register, registers_of, store64, store_bytes, GuestMachine,
    MemoryError,
};
use crate::model::{ecall_memory, ecall_result, granted_len, injected};

verus! {

/// Answers the environment call `LOAD_CODE` by copying a fixed payload into
/// guest memory.
pub struct SyscallLoad {
    data: Vec<u8>,
}

impl View for SyscallLoad {
    type V = Seq<u8>;

    /// The payload.
    closed spec fn view(&self) -> Seq<u8> {
        self.data@
    }
}

impl SyscallLoad {
    /// A handler that hands out `data`.
    pub fn new(data: Vec<u8>) -> (handler: Self)
        ensures
            handler@ == data@,
    {
        SyscallLoad { data }
    }

    /// Whether `code`, the value of `a7` at a trap, is this handler's call.
    pub fn recognizes(code: u64) -> (yes: bool)
        ensures
            yes == (code == LOAD_CODE),
    {
        code == LOAD_CODE
    }

    /// How many bytes a request for `requested` bytes is granted.
    pub fn granted(&self, requested: u64) -> (n: usize)
        ensures
            n == granted_len(self@.len(), requested),
    {
        let available = self.data.len();
        if requested > available as u64 {
            available
        } else {
            requested as usize
        }
    }

    /// The bytes that a request for `requested` bytes is granted.
    pub fn chunk(&self, requested: u64) -> (bytes: &[u8])
        ensures
            bytes@ == injected(self@, requested),
    {
        let n = self.granted(requested);
        slice_subrange(self.data.as_slice(), 0, n)
    }

    /// Called once when a program is loaded. There is nothing to prepare.
    pub fn initialize(&mut self, machine: &mut GuestMachine) -> (r: Result<(), MemoryError>)
        ensures
            r is Ok,
            *final(self) == *old(self),
            *final(machine) == *old(machine),
    {
        Ok(())
    }

    /// Offers a trap to the handler.
    ///
    /// The answer and the memory afterwards are those of the model. The
    /// handler, the registers and the cycle count are never changed, and a
    /// machine whose call is declined is left exactly as it was.
    pub fn ecall(&mut self, machine: &mut GuestMachine) -> (r: Result<bool, MemoryError>)
        ensures
            *final(self) == *old(self),
            registers_of(*final(machine)) == registers_of(*old(machine)),
            cycles_of(*final(machine)) == cycles_of(*old(machine)),
            r == ecall_result(old(self)@, registers_of(*old(machine)), memory_of(*old(machine))),
            memory_of(*final(machine)) == ecall_memory(
                old(self)@,
                registers_of(*old(machine)),
                memory_of(*old(machine)),
            ),
            registers_of(*old(machine))[A7 as int] == LOAD_CODE ==> memory_of(
                *final(machine),
            ).len() == MEMORY_SIZE,
            registers_of(*old(machine))[A7 as int] != LOAD_CODE ==> *final(machine) == *old(
                machine,
            ),
    {
        if !Self::recognizes(register(machine, A7)) {
            return Ok(false);
        }
        let dest = register(machine, A0);
        let size_addr = register(machine, A1);
        let requested = load64(machine, size_addr)?;
        let chunk = self.chunk(requested);
        store_bytes(machine, dest, chunk)?;
        proof {
            lemma_auto_spec_u64_to_from_le_bytes();
        }
        store64(machine, size_addr, chunk.len() as u64)?;
        Ok(true)
    }
}

} // verus!
