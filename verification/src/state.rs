//! The mathematical model of the machine: what a machine is, apart from how
//! it is stored.

use vstd::prelude::*;
use crate::decode::word_of;

verus! {

/// Address of the first program byte, and the program counter after a reset.
pub const START_ADDR: u16 = 0x200;

/// Address of the first glyph byte.
pub const FONT_BASE: u16 = 0x000;

/// Framebuffer width in pixels.
pub const SCREEN_WIDTH: usize = 64;

/// Framebuffer height in pixels.
pub const SCREEN_HEIGHT: usize = 32;

/// The glyphs for the hexadecimal digits `0` to `F`, five rows each, the
/// pattern in the high nibble of every row.
pub const FONTSET: [u8; 80] = [
    0xF0, 0x90, 0x90, 0x90, 0xF0,
    0x20, 0x60, 0x20, 0x20, 0x70,
    0xF0, 0x10, 0xF0, 0x80, 0xF0,
    0xF0, 0x10, 0xF0, 0x10, 0xF0,
    0x90, 0x90, 0xF0, 0x10, 0x10,
    0xF0, 0x80, 0xF0, 0x10, 0xF0,
    0xF0, 0x80, 0xF0, 0x90, 0xF0,
    0xF0, 0x10, 0x20, 0x40, 0x40,
    0xF0, 0x90, 0xF0, 0x90, 0xF0,
    0xF0, 0x90, 0xF0, 0x10, 0xF0,
    0xF0, 0x90, 0xF0, 0x90, 0x90,
    0xE0, 0x90, 0xE0, 0x90, 0xE0,
    0xF0, 0x80, 0x80, 0x80, 0xF0,
    0xE0, 0x90, 0x90, 0x90, 0xE0,
    0xF0, 0x80, 0xF0, 0x80, 0xF0,
    0xF0, 0x80, 0xF0, 0x80, 0x80,
];

/// A machine, as a value.
///
/// The program counter and the index register are sixteen bits wide. Memory
/// has 4096 cells, and an address selects the cell named by its low twelve
/// bits. The stack holds the live return addresses only, oldest first, so its
/// length is the call depth.
#[verifier::ext_equal]
pub struct State {
    /// Program counter.
    pub pc: u16,
    /// Index register `I`.
    pub i: u16,
    /// General registers `V0` to `VF`.
    pub v: Seq<u8>,
    /// Memory cells.
    pub memory: Seq<u8>,
    /// Return addresses, oldest first.
    pub stack: Seq<u16>,
    /// Pixels, row by row from the top, each row from the left.
    pub screen: Seq<bool>,
    /// Whether each key is held down.
    pub keys: Seq<bool>,
    /// Delay timer.
    pub delay: u8,
    /// Sound timer; a tone is requested while it is above zero.
    pub sound: u8,
    /// The register that awaits a key press, while the machine is suspended.
    pub waiting: Option<u8>,
}

impl State {
    /// Every part has its fixed size, the stack is within its capacity, and a
    /// suspended machine awaits a key for one of its registers.
    pub open spec fn wf(self) -> bool {
        &&& self.v.len() == 16
        &&& self.memory.len() == 4096
        &&& self.stack.len() <= 16
        &&& self.screen.len() == 2048
        &&& self.keys.len() == 16
        &&& (self.waiting matches Some(x) ==> x < 16)
    }

    /// The machine after a reset: the glyphs in low memory, everything else
    /// zero, clear or empty, and the program counter at the program start.
    pub open spec fn initial() -> State {
        State {
            pc: START_ADDR,
            i: 0,
            v: Seq::new(16, |k: int| 0u8),
            memory: Seq::new(
                4096,
                |a: int|
                    if FONT_BASE <= a < FONT_BASE + 80 {
                        FONTSET[a - FONT_BASE]
                    } else {
                        0u8
                    },
            ),
            stack: Seq::empty(),
            screen: Seq::new(2048, |p: int| false),
            keys: Seq::new(16, |k: int| false),
            delay: 0,
            sound: 0,
            waiting: None,
        }
    }

    /// The memory cell that the address `addr` selects.
    pub open spec fn cell(self, addr: int) -> u8 {
        self.memory[addr % 4096]
    }

    /// The instruction word at the program counter.
    pub open spec fn opcode(self) -> u16 {
        word_of(self.cell(self.pc as int), self.cell(self.pc + 1))
    }

    /// The pixel in column `x` of row `y`.
    pub open spec fn pixel(self, x: int, y: int) -> bool {
        self.screen[y * 64 + x]
    }
}

} // verus!
