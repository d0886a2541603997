//! What each instruction does to a machine, and what one step is.
//!
//! Policies, where machines of this family differ:
//! - An instruction that sets the flag register reads its operands first,
//!   then writes `VF`, then writes `Vx`. With `x = F` the result therefore
//!   replaces the flag.
//! - Sprites are clipped at the right and bottom edges.
//! - `Fx1E` never touches `VF`; `I` wraps at sixteen bits.
//! - `Fx55` and `Fx65` leave `I` as it was.
//! - The key operand of `Ex9E` and `ExA1` is the low nibble of `Vx`.
//! - `Fx0A` suspends the machine until a key is pressed; a key that was
//!   already held does not count, and releasing a key does not either.
//! - A step that faults leaves the machine as it was before the step.

use vstd::prelude::*;
use crate::display::{sprite_at, xor_sprite, collides};
use crate::fault::Fault;
use crate::instruction::{Instruction, instruction_of};
use crate::state::{State, FONT_BASE, START_ADDR};

verus! {

/// `a` reduced to eight bits.
pub open spec fn wrap8(a: int) -> u8 {
    (a % 256) as u8
}

/// `a` reduced to sixteen bits.
pub open spec fn wrap16(a: int) -> u16 {
    (a % 65536) as u16
}

/// A condition as a flag value.
pub open spec fn flag(b: bool) -> u8 {
    if b {
        1
    } else {
        0
    }
}

/// `s` with the program counter moved past one instruction.
pub open spec fn advanced(s: State) -> State {
    State { pc: wrap16(s.pc + 2), ..s }
}

/// `s`, with the next instruction skipped if `cond` holds.
pub open spec fn skip_if(s: State, cond: bool) -> State {
    if cond {
        advanced(s)
    } else {
        s
    }
}

/// `s` with `Vx = val`.
pub open spec fn with_reg(s: State, x: u8, val: u8) -> State {
    State { v: s.v.update(x as int, val), ..s }
}

/// `s` with `VF = f`, and then `Vx = val`.
pub open spec fn with_flag_then_reg(s: State, f: u8, x: u8, val: u8) -> State {
    State { v: s.v.update(0xF, f).update(x as int, val), ..s }
}

/// `s` after an `n`-row sprite from address `I` is drawn at (`Vx`, `Vy`),
/// both taken modulo the screen size: the pixels under lit sprite bits are
/// flipped, and `VF` says whether a lit pixel went dark.
pub open spec fn drawn(s: State, x: u8, y: u8, n: u8) -> State {
    let sprite = sprite_at(s.memory, s.i, n as int);
    let x0 = s.v[x as int] % 64;
    let y0 = s.v[y as int] % 32;
    State {
        screen: xor_sprite(s.screen, sprite, x0 as int, y0 as int),
        v: s.v.update(0xF, flag(collides(s.screen, sprite, x0 as int, y0 as int))),
        ..s
    }
}

/// The memory of `s` after the decimal digits of `val` are stored at `I`,
/// `I + 1` and `I + 2`, hundreds first.
pub open spec fn bcd_stored(s: State, val: u8) -> Seq<u8> {
    s.memory.update((s.i + 0) % 4096, val / 100).update((s.i + 1) % 4096, (val / 10) % 10).update(
        (s.i + 2) % 4096,
        val % 10,
    )
}

/// How far the cell `a` lies above the cell that `base` selects, going
/// upwards and round from the last cell to the first.
pub open spec fn offset_from(a: int, base: int) -> int {
    (a - base) % 4096
}

/// The memory of `s` after `V0..=Vx` are stored at `I..=I+x`.
pub open spec fn regs_stored(s: State, x: u8) -> Seq<u8> {
    Seq::new(
        4096,
        |a: int|
            if offset_from(a, s.i as int) <= x {
                s.v[offset_from(a, s.i as int)]
            } else {
                s.memory[a]
            },
    )
}

/// The registers of `s` after `V0..=Vx` are loaded from `I..=I+x`.
pub open spec fn regs_loaded(s: State, x: u8) -> Seq<u8> {
    Seq::new(
        16,
        |k: int|
            if k <= x {
                s.cell(s.i + k)
            } else {
                s.v[k]
            },
    )
}

/// The machine after `ins` is executed in `s`, where `s` already has its
/// program counter past `ins`, and `rnd` is the byte that the random source
/// gave. Meant for instructions that do not fault in `s`.
pub open spec fn apply(s: State, ins: Instruction, rnd: u8) -> State {
    match ins {
        Instruction::Nop => s,
        Instruction::Cls => State { screen: Seq::new(2048, |p: int| false), ..s },
        Instruction::Ret => State { pc: s.stack.last(), stack: s.stack.drop_last(), ..s },
        Instruction::Jp { addr } => State { pc: addr, ..s },
        Instruction::Call { addr } => State { pc: addr, stack: s.stack.push(s.pc), ..s },
        Instruction::SeVxKk { x, kk } => skip_if(s, s.v[x as int] == kk),
        Instruction::SneVxKk { x, kk } => skip_if(s, s.v[x as int] != kk),
        Instruction::SeVxVy { x, y } => skip_if(s, s.v[x as int] == s.v[y as int]),
        Instruction::LdVxKk { x, kk } => with_reg(s, x, kk),
        Instruction::AddVxKk { x, kk } => with_reg(s, x, wrap8(s.v[x as int] + kk)),
        Instruction::LdVxVy { x, y } => with_reg(s, x, s.v[y as int]),
        Instruction::OrVxVy { x, y } => with_reg(s, x, s.v[x as int] | s.v[y as int]),
        Instruction::AndVxVy { x, y } => with_reg(s, x, s.v[x as int] & s.v[y as int]),
        Instruction::XorVxVy { x, y } => with_reg(s, x, s.v[x as int] ^ s.v[y as int]),
        Instruction::AddVxVy { x, y } => with_flag_then_reg(
            s,
            flag(s.v[x as int] + s.v[y as int] > 255),
            x,
            wrap8(s.v[x as int] + s.v[y as int]),
        ),
        Instruction::SubVxVy { x, y } => with_flag_then_reg(
            s,
            flag(s.v[x as int] >= s.v[y as int]),
            x,
            wrap8(s.v[x as int] - s.v[y as int]),
        ),
        Instruction::ShrVx { x } => with_flag_then_reg(
            s,
            s.v[x as int] % 2,
            x,
            s.v[x as int] / 2,
        ),
        Instruction::SubnVxVy { x, y } => with_flag_then_reg(
            s,
            flag(s.v[y as int] >= s.v[x as int]),
            x,
            wrap8(s.v[y as int] - s.v[x as int]),
        ),
        Instruction::ShlVx { x } => with_flag_then_reg(
            s,
            s.v[x as int] / 128,
            x,
            wrap8(s.v[x as int] * 2),
        ),
        Instruction::SneVxVy { x, y } => skip_if(s, s.v[x as int] != s.v[y as int]),
        Instruction::LdIAddr { addr } => State { i: addr, ..s },
        Instruction::JpV0Addr { addr } => State { pc: wrap16(s.v[0] + addr), ..s },
        Instruction::RndVxKk { x, kk } => with_reg(s, x, rnd & kk),
        Instruction::DrwVxVyN { x, y, n } => drawn(s, x, y, n),
        Instruction::SkpVx { x } => skip_if(s, s.keys[(s.v[x as int] % 16) as int]),
        Instruction::SknpVx { x } => skip_if(s, !s.keys[(s.v[x as int] % 16) as int]),
        Instruction::LdVxDt { x } => with_reg(s, x, s.delay),
        Instruction::LdVxK { x } => State { waiting: Some(x), ..s },
        Instruction::LdDtVx { x } => State { delay: s.v[x as int], ..s },
        Instruction::LdStVx { x } => State { sound: s.v[x as int], ..s },
        Instruction::AddIVx { x } => State { i: wrap16(s.i + s.v[x as int]), ..s },
        Instruction::LdFVx { x } => State { i: wrap16(FONT_BASE + 5 * s.v[x as int]), ..s },
        Instruction::LdBVx { x } => State { memory: bcd_stored(s, s.v[x as int]), ..s },
        Instruction::LdIVx { x } => State { memory: regs_stored(s, x), ..s },
        Instruction::LdVxI { x } => State { v: regs_loaded(s, x), ..s },
    }
}

/// The fault that `ins` raises in `s`, if any: a return with nothing
/// stacked, or a call with the stack full.
pub open spec fn fault_in(s: State, ins: Instruction) -> Option<Fault> {
    match ins {
        Instruction::Ret => if s.stack.len() == 0 {
            Some(Fault::StackUnderflow)
        } else {
            None
        },
        Instruction::Call { .. } => if s.stack.len() >= 16 {
            Some(Fault::StackOverflow)
        } else {
            None
        },
        _ => None,
    }
}

/// The outcome of executing `op` in `s`, where `s` already has its program
/// counter past `op`.
pub open spec fn executed(s: State, op: u16, rnd: u8) -> Result<State, Fault> {
    match instruction_of(op) {
        None => Err(Fault::InvalidOpcode(op)),
        Some(ins) => match fault_in(s, ins) {
            Some(f) => Err(f),
            None => Ok(apply(s, ins, rnd)),
        },
    }
}

/// One step of the machine. A suspended machine stays as it is. Otherwise
/// the word at the program counter is fetched, the program counter moves
/// past it, and the word is executed.
pub open spec fn stepped(s: State, rnd: u8) -> Result<State, Fault> {
    if s.waiting is Some {
        Ok(s)
    } else {
        executed(advanced(s), s.opcode(), rnd)
    }
}

/// Whether a machine that was `before`, is now `after` and has reported `r`
/// did what `outcome` says: it is in the new state and reported success, or
/// it is as it was and reported the fault.
pub open spec fn agrees(
    outcome: Result<State, Fault>,
    before: State,
    after: State,
    r: Result<(), Fault>,
) -> bool {
    match outcome {
        Ok(s) => r is Ok && after == s,
        Err(f) => r == Err::<(), Fault>(f) && after == before,
    }
}

/// `s` after one timer tick: each timer that is above zero goes down by one.
pub open spec fn timers_ticked(s: State) -> State {
    State {
        delay: if s.delay > 0 {
            (s.delay - 1) as u8
        } else {
            0
        },
        sound: if s.sound > 0 {
            (s.sound - 1) as u8
        } else {
            0
        },
        ..s
    }
}

/// `s` after key `key` is reported as pressed or released. A press ends a
/// suspension: the awaited register receives the key's number.
pub open spec fn key_set(s: State, key: int, pressed: bool) -> State {
    let keys = s.keys.update(key, pressed);
    match s.waiting {
        Some(x) if pressed => State { keys, v: s.v.update(x as int, key as u8), waiting: None, ..s },
        _ => State { keys, ..s },
    }
}

/// `s` after the program `data` is copied to memory from the program start.
pub open spec fn loaded(s: State, data: Seq<u8>) -> State {
    State {
        memory: Seq::new(
            4096,
            |a: int|
                if START_ADDR <= a < START_ADDR + data.len() {
                    data[a - START_ADDR]
                } else {
                    s.memory[a]
                },
        ),
        ..s
    }
}

} // verus!
