//! What follows from the model of the handler.

use vstd::bytes::{lemma_auto_spec_u64_to_from_le_bytes, spec_u64_to_le_bytes};
use vstd::prelude::*;

use crate::layout::{A0, A1, A7, LOAD_CODE, MEMORY_SIZE};
use crate::machine::MemoryError;
use crate::model::{ecall_memory, ecall_result, granted_len, injected, requested_size};

verus! {

/// The handler grants the smaller of what is requested and what it holds,
/// and a handled call writes and reports exactly that much.
///
/// Let `n` be the smaller of the count found at `a1` and the payload's
/// length. The call is handled exactly when its code is `LOAD_CODE`, the
/// count lies in memory and, unless `n` is zero, the `n` bytes from `a0` on
/// do. Memory then holds `n` as the new count, the payload's first `n` bytes
/// from `a0` on wherever the count does not overlap them, and what it held
/// before everywhere else.
pub proof fn truncation_law(payload: Seq<u8>, registers: Seq<u64>, memory: Seq<u8>)
    requires
        memory.len() == MEMORY_SIZE,
    ensures
        ({
            let dest = registers[A0 as int];
            let size_addr = registers[A1 as int];
            let requested = requested_size(memory, size_addr);
            let n = granted_len(payload.len(), requested);
            let after = ecall_memory(payload, registers, memory);
            &&& n == vstd::math::min(requested as int, payload.len() as int)
            &&& ecall_result(payload, registers, memory) == Ok::<bool, MemoryError>(true) <==> {
                &&& registers[A7 as int] == LOAD_CODE
                &&& size_addr + 8 <= MEMORY_SIZE
                &&& n == 0 || dest + n <= MEMORY_SIZE
            }
            &&& ecall_result(payload, registers, memory) == Ok::<bool, MemoryError>(true) ==> {
                &&& requested_size(after, size_addr) == n
                &&& (forall|i: int|
                    0 <= i < n && !(size_addr <= dest + i < size_addr + 8) ==> #[trigger] after[dest
                        + i] == payload[i])
                &&& (forall|a: int|
                    0 <= a < MEMORY_SIZE && !(dest <= a < dest + n) && !(size_addr <= a < size_addr
                        + 8) ==> #[trigger] after[a] == memory[a])
            }
        }),
{
    lemma_auto_spec_u64_to_from_le_bytes();
    let size_addr = registers[A1 as int];
    let n = granted_len(payload.len(), requested_size(memory, size_addr));
    let after = ecall_memory(payload, registers, memory);
    if ecall_result(payload, registers, memory) == Ok::<bool, MemoryError>(true) {
        assert(after.subrange(size_addr as int, size_addr + 8) =~= spec_u64_to_le_bytes(n as u64));
    }
}

/// The handler never reads past the end of its payload.
///
/// Whatever is requested, the bytes handed out are the payload's first ones,
/// byte for byte, and no more than it holds. A request for more than the
/// payload holds is granted the payload and nothing else.
pub proof fn no_over_read(payload: Seq<u8>, requested: u64)
    ensures
        injected(payload, requested).len() == granted_len(payload.len(), requested),
        injected(payload, requested).len() <= payload.len(),
        forall|i: int|
            0 <= i < injected(payload, requested).len() ==> #[trigger] injected(
                payload,
                requested,
            )[i] == payload[i],
        requested > payload.len() ==> injected(payload, requested) == payload,
{
}

/// The handler's side of dispatch: it declines exactly the traps whose call
/// code is not `LOAD_CODE`, and a declined trap leaves memory as it was, so
/// what is offered to the next handler is what was offered to this one.
pub proof fn declined_trap_is_untouched(payload: Seq<u8>, registers: Seq<u64>, memory: Seq<u8>)
    ensures
        ecall_result(payload, registers, memory) == Ok::<bool, MemoryError>(false)
            <==> registers[A7 as int] != LOAD_CODE,
        registers[A7 as int] != LOAD_CODE ==> ecall_memory(payload, registers, memory) == memory,
{
}

/// The handler's accesses are held to the ceiling of guest memory.
///
/// A call with the handler's code whose count does not lie in memory is
/// answered with `OutOfBound`, and memory is left as it was. One whose granted
/// bytes do not all lie in memory is answered with `OutOfBound` too, and
/// memory below the destination is left as it was. The handler fails in no
/// other case and with no other error, and memory keeps its length whatever
/// the answer.
pub proof fn bounds_enforcement(payload: Seq<u8>, registers: Seq<u64>, memory: Seq<u8>)
    requires
        memory.len() == MEMORY_SIZE,
    ensures
        ({
            let dest = registers[A0 as int];
            let size_addr = registers[A1 as int];
            let n = granted_len(payload.len(), requested_size(memory, size_addr));
            let result = ecall_result(payload, registers, memory);
            let after = ecall_memory(payload, registers, memory);
            let count_outside = registers[A7 as int] == LOAD_CODE && size_addr + 8 > MEMORY_SIZE;
            let bytes_outside = registers[A7 as int] == LOAD_CODE && size_addr + 8 <= MEMORY_SIZE
                && n > 0 && dest + n > MEMORY_SIZE;
            &&& after.len() == MEMORY_SIZE
            &&& count_outside ==> after == memory
            &&& bytes_outside ==> (forall|a: int|
                0 <= a < dest && a < MEMORY_SIZE ==> #[trigger] after[a] == memory[a])
            &&& result is Err <==> count_outside || bytes_outside
            &&& result is Err ==> result == Err::<bool, MemoryError>(MemoryError::OutOfBound)
        }),
{
}

} // verus!
