//! The constants of the guest machine and of the calling convention.

use vstd::prelude::*;

verus! {

/// Number of bytes of guest memory: addresses run from 0 up to, not
/// including, this ceiling.
pub const MEMORY_SIZE: u64 = 4194304;

/// Number of general registers.
pub const REGISTER_COUNT: usize = 32;

/// Index of `a0`, the first argument register.
pub const A0: usize = 10;

/// Index of `a1`, the second argument register.
pub const A1: usize = 11;

/// Index of `a7`, the register that carries the call code.
pub const A7: usize = 17;

/// The call code that the data-injection handler answers.
pub const LOAD_CODE: u64 = 2077;

} // verus!
