//! Relative-jump instructions of a small microcontroller instruction set.
//!
//! A jump carries a signed displacement that the hardware stores as a
//! ten-bit two's-complement field. This crate widens that field to an `i16`,
//! wraps the result in one of eight instruction kinds, and renders each
//! instruction in the assembler's textual form.

pub mod hex;
pub mod jxx;
pub mod kinds;
pub mod offset;

pub use crate::jxx::{render_jump, Jxx};
pub use crate::kinds::{Jc, Jge, Jl, Jlo, Jmp, Jn, Jnz, Jz};
pub use crate::offset::jxx_fix_offset;
