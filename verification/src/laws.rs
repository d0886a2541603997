//! Laws of the machine: what holds of every state, and of instructions in
//! sequence.

use vstd::prelude::*;
use crate::display::{lemma_draw_twice, lights, sprite_at};
use crate::fault::Fault;
use crate::instruction::{Instruction, instruction_of, lemma_instruction_of_sound};
use crate::semantics::{
    advanced, apply, drawn, fault_in, flag, key_set, offset_from, regs_loaded, regs_stored, stepped,
    timers_ticked, wrap16, wrap8,
};
use crate::state::State;

verus! {

/// A step keeps a well-formed machine well formed: every part keeps its
/// size, and the stack never grows past its capacity.
pub proof fn lemma_step_keeps_wf(s: State, rnd: u8)
    requires
        s.wf(),
    ensures
        stepped(s, rnd) matches Ok(t) ==> t.wf(),
{
    if s.waiting is None {
        lemma_instruction_of_sound(s.opcode());
    }
}

/// Only the instruction that draws a random byte depends on that byte.
pub proof fn lemma_step_ignores_random(s: State, rnd1: u8, rnd2: u8)
    requires
        !(s.waiting is None && instruction_of(s.opcode()) matches Some(
            Instruction::RndVxKk { .. },
        )),
    ensures
        stepped(s, rnd1) == stepped(s, rnd2),
{
}

/// A word that names no instruction faults with that word, whatever the
/// machine's state.
pub proof fn lemma_unknown_word_faults(s: State, rnd: u8)
    requires
        s.waiting is None,
        instruction_of(s.opcode()) is None,
    ensures
        stepped(s, rnd) == Err::<State, Fault>(Fault::InvalidOpcode(s.opcode())),
{
}

/// A step faults in exactly three ways: the word names no instruction, a
/// return finds the stack empty, or a call finds it full.
pub proof fn lemma_faults(s: State, rnd: u8)
    requires
        s.wf(),
        s.waiting is None,
    ensures
        stepped(s, rnd) is Err <==> {
            ||| instruction_of(s.opcode()) is None
            ||| instruction_of(s.opcode()) == Some(Instruction::Ret) && s.stack.len() == 0
            ||| instruction_of(s.opcode()) matches Some(Instruction::Call { .. }) && s.stack.len()
                == 16
        },
        instruction_of(s.opcode()) == Some(Instruction::Ret) && s.stack.len() == 0 ==> stepped(
            s,
            rnd,
        ) == Err::<State, Fault>(Fault::StackUnderflow),
        instruction_of(s.opcode()) matches Some(Instruction::Call { .. }) && s.stack.len() == 16
            ==> stepped(s, rnd) == Err::<State, Fault>(Fault::StackOverflow),
{
}

/// Clearing the screen leaves every pixel dark.
pub proof fn lemma_cls_clears(s: State, rnd: u8)
    requires
        s.wf(),
        s.waiting is None,
        s.opcode() == 0x00E0,
    ensures
        stepped(s, rnd) matches Ok(t) && t.screen.len() == 2048 && (forall|p: int|
            0 <= p < 2048 ==> !t.screen[p]) && (forall|x: int, y: int|
            0 <= x < 64 && 0 <= y < 32 ==> !t.pixel(x, y)),
{
    assert(instruction_of(0x00E0) == Some(Instruction::Cls));
}

/// A call followed at once by a return comes back to the instruction after
/// the call: the machine is as if the call had only been stepped over.
pub proof fn lemma_call_then_return(s: State, rnd1: u8, rnd2: u8)
    requires
        s.wf(),
        s.waiting is None,
        s.stack.len() < 16,
        instruction_of(s.opcode()) matches Some(Instruction::Call { addr }) && s.cell(
            addr as int,
        ) == 0x00 && s.cell(addr + 1) == 0xEE,
    ensures
        stepped(s, rnd1) matches Ok(called) && stepped(called, rnd2) matches Ok(returned)
            && returned == advanced(s) && returned.pc == wrap16(s.pc + 2),
{
    let addr = instruction_of(s.opcode())->Some_0->Call_addr;
    let called = stepped(s, rnd1)->Ok_0;
    assert(called.pc == addr);
    assert(called.opcode() == 0x00EE);
    assert(instruction_of(0x00EE) == Some(Instruction::Ret));
    let returned = stepped(called, rnd2)->Ok_0;
    assert(returned.stack =~= s.stack);
    assert(returned =~= advanced(s));
}

/// The cell `k` places above the one that `base` selects lies `k` places
/// above it.
proof fn lemma_offset_of_sum(base: int, k: int)
    requires
        0 <= k < 4096,
    ensures
        offset_from((base + k) % 4096, base) == k,
{
    let a = (base + k) % 4096;
    let q = (base + k) / 4096;
    assert(base + k == 4096 * q + a);
    assert(a - base == 4096 * (-q) + k);
    assert((4096 * (-q) + k) % 4096 == k) by {
        vstd::arithmetic::div_mod::lemma_fundamental_div_mod_converse(a - base, 4096, -q, k);
    }
}

/// Storing `V0..=Vx` and loading them back from the same address restores
/// them, whatever the registers held in between. Registers above `Vx` are
/// not touched by the load, and the store changes neither a register nor
/// `I`.
pub proof fn lemma_store_then_load(s: State, between: State, x: u8, rnd1: u8, rnd2: u8)
    requires
        s.wf(),
        between.wf(),
        x < 16,
        between.memory == apply(s, Instruction::LdIVx { x }, rnd1).memory,
        between.i == s.i,
    ensures
        forall|k: int|
            0 <= k <= x ==> apply(between, Instruction::LdVxI { x }, rnd2).v[k] == s.v[k],
        forall|k: int|
            x < k < 16 ==> apply(between, Instruction::LdVxI { x }, rnd2).v[k] == between.v[k],
        apply(s, Instruction::LdIVx { x }, rnd1).v == s.v,
        apply(s, Instruction::LdIVx { x }, rnd1).i == s.i,
{
    let stored = regs_stored(s, x);
    let loaded = regs_loaded(between, x);
    assert(between.memory == stored);
    assert(apply(between, Instruction::LdVxI { x }, rnd2).v == loaded);
    assert forall|k: int| 0 <= k <= x implies loaded[k] == s.v[k] by {
        let a = (s.i + k) % 4096;
        lemma_offset_of_sum(s.i as int, k);
        assert(loaded[k] == between.cell(between.i + k));
        assert(between.cell(between.i + k) == stored[a]);
        assert(stored[a] == s.v[offset_from(a, s.i as int)]);
    }
}

/// Drawing the same sprite twice at the same place restores the
/// framebuffer, and the second drawing reports a collision exactly if the
/// first lit a pixel that was dark. So it does whenever a lit sprite bit
/// falls on a dark pixel of the screen.
pub proof fn lemma_draw_twice_restores(s: State, x: u8, y: u8, n: u8)
    requires
        s.wf(),
        x < 16,
        y < 16,
        n < 16,
        drawn(s, x, y, n).v[x as int] % 64 == s.v[x as int] % 64,
        drawn(s, x, y, n).v[y as int] % 32 == s.v[y as int] % 32,
    ensures
        drawn(drawn(s, x, y, n), x, y, n).screen == s.screen,
        drawn(drawn(s, x, y, n), x, y, n).v[0xF] == flag(
            lights(
                s.screen,
                sprite_at(s.memory, s.i, n as int),
                (s.v[x as int] % 64) as int,
                (s.v[y as int] % 32) as int,
            ),
        ),
        lights(
            s.screen,
            sprite_at(s.memory, s.i, n as int),
            (s.v[x as int] % 64) as int,
            (s.v[y as int] % 32) as int,
        ) ==> drawn(drawn(s, x, y, n), x, y, n).v[0xF] == 1,
{
    lemma_draw_twice(
        s.screen,
        sprite_at(s.memory, s.i, n as int),
        (s.v[x as int] % 64) as int,
        (s.v[y as int] % 32) as int,
    );
}

/// The five instructions that set the flag register derive both the flag
/// and the result from the operands as they were before the instruction,
/// also where `x` and `y` name one register or `y` names `VF`. The flag is
/// written first: with `x = F` the result is what `VF` holds afterwards.
pub proof fn lemma_flag_from_operands(s: State, x: u8, y: u8, rnd: u8)
    requires
        s.wf(),
        x < 16,
        y < 16,
    ensures
        ({
            let vx = s.v[x as int];
            let vy = s.v[y as int];
            let added = apply(s, Instruction::AddVxVy { x, y }, rnd).v;
            let subbed = apply(s, Instruction::SubVxVy { x, y }, rnd).v;
            let subbed_n = apply(s, Instruction::SubnVxVy { x, y }, rnd).v;
            let halved = apply(s, Instruction::ShrVx { x }, rnd).v;
            let doubled = apply(s, Instruction::ShlVx { x }, rnd).v;
            &&& added[x as int] == wrap8(vx + vy)
            &&& subbed[x as int] == wrap8(vx - vy)
            &&& subbed_n[x as int] == wrap8(vy - vx)
            &&& halved[x as int] == vx / 2
            &&& doubled[x as int] == wrap8(vx * 2)
            &&& x != 0xF ==> {
                &&& added[0xF] == flag(vx + vy > 255)
                &&& subbed[0xF] == flag(vx >= vy)
                &&& subbed_n[0xF] == flag(vy >= vx)
                &&& halved[0xF] == vx % 2
                &&& doubled[0xF] == vx / 128
            }
        }),
{
}

/// The three cells that `Fx33` writes hold the decimal digits of the value:
/// each is below ten, and together they spell it.
pub proof fn lemma_bcd_digits(s: State, x: u8, rnd: u8)
    requires
        s.wf(),
        x < 16,
    ensures
        ({
            let t = apply(s, Instruction::LdBVx { x }, rnd);
            let hundreds = t.cell(s.i + 0);
            let tens = t.cell(s.i + 1);
            let units = t.cell(s.i + 2);
            &&& hundreds < 10 && tens < 10 && units < 10
            &&& 100 * hundreds + 10 * tens + units == s.v[x as int]
            &&& forall|a: int|
                0 <= a < 4096 && a != (s.i + 0) % 4096 && a != (s.i + 1) % 4096 && a != (s.i + 2)
                    % 4096 ==> t.memory[a] == s.memory[a]
        }),
{
}

/// A timer tick never raises a timer, never takes one below zero, and
/// touches nothing else.
pub proof fn lemma_timers_go_down(s: State)
    ensures
        timers_ticked(s).delay <= s.delay,
        timers_ticked(s).sound <= s.sound,
        s.delay > 0 ==> timers_ticked(s).delay == s.delay - 1,
        s.sound > 0 ==> timers_ticked(s).sound == s.sound - 1,
        timers_ticked(s) == (State {
            delay: timers_ticked(s).delay,
            sound: timers_ticked(s).sound,
            ..s
        }),
{
}

/// No instruction but the two timer loads changes a timer.
pub proof fn lemma_only_loads_set_timers(s: State, ins: Instruction, rnd: u8)
    ensures
        !(ins is LdDtVx) ==> apply(s, ins, rnd).delay == s.delay,
        !(ins is LdStVx) ==> apply(s, ins, rnd).sound == s.sound,
{
}

/// The framebuffer changes only by a clear or a draw.
pub proof fn lemma_only_cls_and_drw_touch_screen(s: State, ins: Instruction, rnd: u8)
    ensures
        !(ins is Cls || ins is DrwVxVyN) ==> apply(s, ins, rnd).screen == s.screen,
{
}

/// No instruction changes the keypad.
pub proof fn lemma_keys_read_only(s: State, rnd: u8)
    ensures
        stepped(s, rnd) matches Ok(t) ==> t.keys == s.keys,
{
}

/// A suspended machine does not move until a key is pressed; the press
/// hands the key's number to the awaited register and ends the suspension.
/// A release, or a key that is merely held, does not.
pub proof fn lemma_key_wait(s: State, x: u8, key: int, rnd: u8)
    requires
        s.wf(),
        s.waiting == Some(x),
        0 <= key < 16,
    ensures
        stepped(s, rnd) == Ok::<State, Fault>(s),
        key_set(s, key, true).waiting is None,
        key_set(s, key, true).v == s.v.update(x as int, key as u8),
        key_set(s, key, true).pc == s.pc,
        key_set(s, key, false).waiting == Some(x),
        key_set(s, key, false).v == s.v,
{
}

/// An instruction that is no jump, call or return leaves the program
/// counter where it is or moves it past one more instruction.
pub proof fn lemma_pc_moves(s: State, ins: Instruction, rnd: u8)
    requires
        !(ins is Jp || ins is Call || ins is Ret || ins is JpV0Addr),
    ensures
        apply(s, ins, rnd).pc == s.pc || apply(s, ins, rnd).pc == wrap16(s.pc + 2),
{
}

/// Moving past one instruction keeps an even program counter even.
proof fn lemma_even_next(pc: u16)
    requires
        pc % 2 == 0,
    ensures
        wrap16(pc + 2) % 2 == 0,
{
}

/// From an even program counter, every instruction but a jump, a call or a
/// return leaves the program counter even.
pub proof fn lemma_pc_stays_even(s: State, rnd: u8)
    requires
        s.pc % 2 == 0,
        !(instruction_of(s.opcode()) matches Some(ins) && (ins is Jp || ins is Call || ins is Ret
            || ins is JpV0Addr)),
    ensures
        stepped(s, rnd) matches Ok(t) ==> t.pc % 2 == 0,
{
    if s.waiting is None {
        let next = advanced(s);
        lemma_even_next(s.pc);
        lemma_even_next(next.pc);
        match instruction_of(s.opcode()) {
            Some(ins) => {
                lemma_pc_moves(next, ins, rnd);
                assert(fault_in(next, ins) is None);
                assert(stepped(s, rnd) == Ok::<State, Fault>(apply(next, ins, rnd)));
            },
            None => {
                assert(stepped(s, rnd) is Err);
            },
        }
    }
}

} // verus!
