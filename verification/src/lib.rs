//! An Intel 8080 processor model: registers, flags, memory, and the
//! instructions that act on them, each with a verified contract.

pub mod flags;
pub mod semantics;
pub mod state;
pub mod emulate;
pub mod laws;

pub use crate::emulate::{can_emulate, emulate};
pub use crate::flags::Flags;
pub use crate::state::State8080;
pub mod alu_laws;
pub mod step_laws;
