//! Architecture-facing glue for a baremetal kernel on targets without
//! address-translation hardware: a per-core MMU lifecycle shim whose
//! operations are guaranteed no-ops, and a fatal-trap handler that turns an
//! unrecoverable fault into one error-severity diagnostic record followed by
//! a permanent halt of the faulting core.

pub mod decimal;
pub mod mmu;
pub mod sink;
pub mod trap;
