//! A data-injection environment call for a RISC-V guest run by `ckb-vm`.
//!
//! The guest puts a call code into `a7`, a destination address into `a0` and
//! the address of a 64-bit byte count into `a1`, then traps. The handler
//! copies as much of its payload as was asked for, never more than it holds,
//! and writes the count it copied back over the request.
//!
//! The handler is stated for [`GuestMachine`], the interpreter's machine. To
//! attach it, implement `ckb_vm::Syscalls<GuestMachine>` for a wrapper that
//! forwards to [`SyscallLoad::initialize`] and [`SyscallLoad::ecall`]. For a
//! machine of another type, [`SyscallLoad::recognizes`] and
//! [`SyscallLoad::chunk`] say what to answer.
//!
//! `layout` holds the constants of the calling convention, `machine` the
//! boundary to the virtual machine, `model` the handler as a function on the
//! guest's state, `handler` the handler itself and `laws` what follows from
//! the model.

pub mod handler;
pub mod laws;
pub mod layout;
pub mod machine;
pub mod model;

pub use handler::SyscallLoad;
pub use layout::{A0, A1, A7, LOAD_CODE, MEMORY_SIZE, REGISTER_COUNT};
pub use machine::{GuestMachine, MemoryError};
