//! A CHIP-8 interpreter core: registers, memory, framebuffer, timers and
//! keypad, with a fetch-decode-execute engine whose every instruction is
//! defined over a mathematical model of the machine.
//!
//! [`Emu`] is the machine. [`Emu::tick`] runs one instruction,
//! [`Emu::tick_timers`] one timer tick; the caller paces the two. The model
//! is [`state::State`], and [`semantics`] says what every instruction does to
//! it.

pub mod decode;
pub mod display;
pub mod emu;
pub mod fault;
pub mod instruction;
pub mod laws;
pub mod random;
pub mod semantics;
pub mod state;

pub use crate::emu::Emu;
pub use crate::fault::Fault;
pub use crate::state::{SCREEN_HEIGHT, SCREEN_WIDTH};
