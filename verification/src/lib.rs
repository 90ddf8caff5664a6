//! An instruction-level emulator for a 64-bit RISC-V hart.
//!
//! The crate models the RV64I base integer instruction set: a register file
//! with a hardwired zero register, a sparse control/status register bank, a
//! composable memory fabric made of byte-addressable regions, a page-table
//! walker for the paged translation modes, the machine-level trap machinery,
//! and the fetch-decode-execute step that ties them together.
//!
//! Every executable function carries a contract; the step function is proved
//! to implement the architectural semantics stated by [`semantics::step_spec`].
pub mod abstract_machine;
pub mod bits;
pub mod csr_layout;
pub mod device;
pub mod evaluate;
pub mod inst_type;
pub mod irq;
pub mod laws;
pub mod machine;
pub mod mem_model;
pub mod memory;
pub mod mmu;
pub mod monitor;
pub mod regfile;
pub mod semantics;
