//! Loading and attaching BPF extension programs, which replace a global
//! function of a program that is already loaded in the kernel.
//!
//! The kernel calls themselves are made by the caller: the library decides,
//! from the result of each call, which call comes next and what the outcome is.
use vstd::prelude::*;

pub mod error;
pub mod extension;
pub mod link;

pub use error::{BtfError, ExtensionError, ProgramError, Syscall};

verus! {

} // verus!
