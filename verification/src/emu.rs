//! The machine as it is stored and run.

use vstd::prelude::*;
use crate::decode::join_bytes;
use crate::display::draw_sprite;
use crate::fault::Fault;
use crate::instruction::{Instruction, instruction_of, parse};
use crate::random::random_byte;
use crate::semantics::{
    advanced, agrees, bcd_stored, drawn, executed, flag, key_set, loaded, offset_from,
    regs_loaded, regs_stored, skip_if, stepped, timers_ticked, with_flag_then_reg, with_reg,
    wrap16, wrap8,
};
use crate::state::{State, FONTSET, FONT_BASE, START_ADDR};

verus! {

/// A CHIP-8 machine.
pub struct Emu {
    pc: u16,
    ram: [u8; 4096],
    screen: [bool; 2048],
    v_reg: [u8; 16],
    i_reg: u16,
    sp: u16,
    stack: [u16; 16],
    keys: [bool; 16],
    dt: u8,
    st: u8,
    waiting: Option<u8>,
}

impl View for Emu {
    type V = State;

    /// The machine as a value. Stack slots above the stack pointer are not
    /// part of it.
    closed spec fn view(&self) -> State {
        State {
            pc: self.pc,
            i: self.i_reg,
            v: self.v_reg@,
            memory: self.ram@,
            stack: self.stack@.take(self.sp as int),
            screen: self.screen@,
            keys: self.keys@,
            delay: self.dt,
            sound: self.st,
            waiting: self.waiting,
        }
    }
}

/// A memory image with the glyphs in place and every other cell zero.
fn fresh_memory() -> (ram: [u8; 4096])
    ensures
        ram@ == State::initial().memory,
{
    let mut ram: [u8; 4096] = [0u8; 4096];
    let mut k: usize = 0;
    while k < 80
        invariant
            k <= 80,
            forall|a: int| 0 <= a < k ==> ram[a] == FONTSET[a],
            forall|a: int| k <= a < 4096 ==> ram[a] == 0,
        decreases 80 - k,
    {
        ram[FONT_BASE as usize + k] = FONTSET[k];
        k = k + 1;
    }
    assert(ram@ =~= State::initial().memory);
    ram
}

impl Emu {
    /// The stack pointer stays within the stack, and a suspended machine
    /// awaits a key for one of its registers.
    #[verifier::type_invariant]
    spec fn inv(self) -> bool {
        &&& self.sp <= 16
        &&& (self.waiting matches Some(x) ==> x < 16)
    }

    /// A machine in its reset state.
    pub fn new() -> (emu: Self)
        ensures
            emu@ == State::initial(),
            emu@.wf(),
    {
        let emu = Emu {
            pc: START_ADDR,
            ram: fresh_memory(),
            screen: [false; 2048],
            v_reg: [0u8; 16],
            i_reg: 0,
            sp: 0,
            stack: [0u16; 16],
            keys: [false; 16],
            dt: 0,
            st: 0,
            waiting: None,
        };
        assert(emu@ =~= State::initial());
        emu
    }

    /// Puts the machine back into its reset state, all parts at once.
    pub fn reset(&mut self)
        ensures
            final(self)@ == State::initial(),
            final(self)@.wf(),
    {
        *self = Emu::new();
    }

    /// One timer tick: each timer that is above zero goes down by one.
    pub fn tick_timers(&mut self)
        ensures
            final(self)@ == timers_ticked(old(self)@),
            final(self)@.wf(),
    {
        proof {
            use_type_invariant(&*self);
        }
        if self.dt > 0 {
            self.dt -= 1;
        }
        if self.st > 0 {
            self.st -= 1;
        }
    }

    /// Reads the instruction word at the program counter and moves the
    /// program counter past it.
    fn fetch(&mut self) -> (op: u16)
        ensures
            op == old(self)@.opcode(),
            final(self)@ == advanced(old(self)@),
    {
        proof {
            use_type_invariant(&*self);
        }
        let high: u8 = self.ram[(self.pc % 4096) as usize];
        let low: u8 = self.ram[(self.pc.wrapping_add(1) % 4096) as usize];
        assert(self.pc.wrapping_add(1) % 4096 == (self.pc + 1) % 4096);
        self.pc = self.pc.wrapping_add(2);
        join_bytes(high, low)
    }

    /// Pushes a return address, unless the stack is full.
    fn stack_push(&mut self, val: u16) -> (r: Result<(), Fault>)
        ensures
            old(self)@.stack.len() < 16 ==> r is Ok && final(self)@ == (State {
                stack: old(self)@.stack.push(val),
                ..old(self)@
            }),
            old(self)@.stack.len() >= 16 ==> r == Err::<(), Fault>(Fault::StackOverflow)
                && final(self)@ == old(self)@,
    {
        proof {
            use_type_invariant(&*self);
        }
        if self.sp >= 16 {
            return Err(Fault::StackOverflow);
        }
        self.stack[self.sp as usize] = val;
        self.sp += 1;
        assert(self@.stack =~= old(self)@.stack.push(val));
        Ok(())
    }

    /// Pops the newest return address, unless the stack is empty.
    fn stack_pop(&mut self) -> (r: Result<u16, Fault>)
        ensures
            old(self)@.stack.len() > 0 ==> r == Ok::<u16, Fault>(old(self)@.stack.last())
                && final(self)@ == (State { stack: old(self)@.stack.drop_last(), ..old(self)@ }),
            old(self)@.stack.len() == 0 ==> r == Err::<u16, Fault>(Fault::StackUnderflow)
                && final(self)@ == old(self)@,
    {
        proof {
            use_type_invariant(&*self);
        }
        if self.sp == 0 {
            return Err(Fault::StackUnderflow);
        }
        self.sp -= 1;
        assert(self@.stack =~= old(self)@.stack.drop_last());
        Ok(self.stack[self.sp as usize])
    }

    /// `00E0`: clears the framebuffer.
    fn cls(&mut self)
        ensures
            final(self)@ == (State { screen: Seq::new(2048, |p: int| false), ..old(self)@ }),
    {
        proof {
            use_type_invariant(&*self);
        }
        self.screen = [false; 2048];
        assert(self.screen@ =~= Seq::new(2048, |p: int| false));
    }

    /// `00EE`: returns to the newest return address.
    fn ret(&mut self) -> (r: Result<(), Fault>)
        ensures
            old(self)@.stack.len() > 0 ==> r is Ok && final(self)@ == (State {
                pc: old(self)@.stack.last(),
                stack: old(self)@.stack.drop_last(),
                ..old(self)@
            }),
            old(self)@.stack.len() == 0 ==> r == Err::<(), Fault>(Fault::StackUnderflow)
                && final(self)@ == old(self)@,
    {
        proof {
            use_type_invariant(&*self);
        }
        match self.stack_pop() {
            Ok(addr) => {
                proof {
                    use_type_invariant(&*self);
                }
                self.pc = addr;
                Ok(())
            },
            Err(f) => Err(f),
        }
    }

    /// `1nnn`: jumps to `addr`.
    fn jp_addr(&mut self, addr: u16)
        ensures
            final(self)@ == (State { pc: addr, ..old(self)@ }),
    {
        proof {
            use_type_invariant(&*self);
        }
        self.pc = addr;
    }

    /// `2nnn`: stacks the program counter and jumps to `addr`.
    fn call(&mut self, addr: u16) -> (r: Result<(), Fault>)
        ensures
            old(self)@.stack.len() < 16 ==> r is Ok && final(self)@ == (State {
                pc: addr,
                stack: old(self)@.stack.push(old(self)@.pc),
                ..old(self)@
            }),
            old(self)@.stack.len() >= 16 ==> r == Err::<(), Fault>(Fault::StackOverflow)
                && final(self)@ == old(self)@,
    {
        proof {
            use_type_invariant(&*self);
        }
        let ret_addr: u16 = self.pc;
        match self.stack_push(ret_addr) {
            Ok(()) => {
                proof {
                    use_type_invariant(&*self);
                }
                self.pc = addr;
                Ok(())
            },
            Err(f) => Err(f),
        }
    }

    /// `3xkk`: skips the next instruction if `Vx == kk`.
    fn se_vx_kk(&mut self, x: u8, kk: u8)
        requires
            x < 16,
        ensures
            final(self)@ == skip_if(old(self)@, old(self)@.v[x as int] == kk),
    {
        proof {
            use_type_invariant(&*self);
        }
        if self.v_reg[x as usize] == kk {
            self.pc = self.pc.wrapping_add(2);
        }
    }

    /// `4xkk`: skips the next instruction if `Vx != kk`.
    fn sne_vx_kk(&mut self, x: u8, kk: u8)
        requires
            x < 16,
        ensures
            final(self)@ == skip_if(old(self)@, old(self)@.v[x as int] != kk),
    {
        proof {
            use_type_invariant(&*self);
        }
        if self.v_reg[x as usize] != kk {
            self.pc = self.pc.wrapping_add(2);
        }
    }

    /// `5xy0`: skips the next instruction if `Vx == Vy`.
    fn se_vx_vy(&mut self, x: u8, y: u8)
        requires
            x < 16,
            y < 16,
        ensures
            final(self)@ == skip_if(old(self)@, old(self)@.v[x as int] == old(self)@.v[y as int]),
    {
        proof {
            use_type_invariant(&*self);
        }
        if self.v_reg[x as usize] == self.v_reg[y as usize] {
            self.pc = self.pc.wrapping_add(2);
        }
    }

    /// `6xkk`: `Vx = kk`.
    fn ld_vx_kk(&mut self, x: u8, kk: u8)
        requires
            x < 16,
        ensures
            final(self)@ == with_reg(old(self)@, x, kk),
    {
        proof {
            use_type_invariant(&*self);
        }
        self.v_reg[x as usize] = kk;
    }

    /// `7xkk`: `Vx = Vx + kk` modulo 256; the flag register is not touched.
    fn add_vx_kk(&mut self, x: u8, kk: u8)
        requires
            x < 16,
        ensures
            final(self)@ == with_reg(old(self)@, x, wrap8(old(self)@.v[x as int] + kk)),
    {
        proof {
            use_type_invariant(&*self);
        }
        self.v_reg[x as usize] = self.v_reg[x as usize].wrapping_add(kk);
    }

    /// `8xy0`: `Vx = Vy`.
    fn ld_vx_vy(&mut self, x: u8, y: u8)
        requires
            x < 16,
            y < 16,
        ensures
            final(self)@ == with_reg(old(self)@, x, old(self)@.v[y as int]),
    {
        proof {
            use_type_invariant(&*self);
        }
        self.v_reg[x as usize] = self.v_reg[y as usize];
    }

    /// `8xy1`: `Vx = Vx OR Vy`.
    fn or_vx_vy(&mut self, x: u8, y: u8)
        requires
            x < 16,
            y < 16,
        ensures
            final(self)@ == with_reg(
                old(self)@,
                x,
                old(self)@.v[x as int] | old(self)@.v[y as int],
            ),
    {
        proof {
            use_type_invariant(&*self);
        }
        self.v_reg[x as usize] = self.v_reg[x as usize] | self.v_reg[y as usize];
    }

    /// `8xy2`: `Vx = Vx AND Vy`.
    fn and_vx_vy(&mut self, x: u8, y: u8)
        requires
            x < 16,
            y < 16,
        ensures
            final(self)@ == with_reg(
                old(self)@,
                x,
                old(self)@.v[x as int] & old(self)@.v[y as int],
            ),
    {
        proof {
            use_type_invariant(&*self);
        }
        self.v_reg[x as usize] = self.v_reg[x as usize] & self.v_reg[y as usize];
    }

    /// `8xy3`: `Vx = Vx XOR Vy`.
    fn xor_vx_vy(&mut self, x: u8, y: u8)
        requires
            x < 16,
            y < 16,
        ensures
            final(self)@ == with_reg(
                old(self)@,
                x,
                old(self)@.v[x as int] ^ old(self)@.v[y as int],
            ),
    {
        proof {
            use_type_invariant(&*self);
        }
        self.v_reg[x as usize] = self.v_reg[x as usize] ^ self.v_reg[y as usize];
    }

    /// `8xy4`: `VF` = whether `Vx + Vy` exceeds eight bits, then
    /// `Vx = Vx + Vy` modulo 256.
    fn add_vx_vy(&mut self, x: u8, y: u8)
        requires
            x < 16,
            y < 16,
        ensures
            final(self)@ == with_flag_then_reg(
                old(self)@,
                flag(old(self)@.v[x as int] + old(self)@.v[y as int] > 255),
                x,
                wrap8(old(self)@.v[x as int] + old(self)@.v[y as int]),
            ),
    {
        proof {
            use_type_invariant(&*self);
        }
        let vx: u8 = self.v_reg[x as usize];
        let vy: u8 = self.v_reg[y as usize];
        let carry: u8 = if vy > 255 - vx {
            1
        } else {
            0
        };
        self.v_reg[0xF] = carry;
        self.v_reg[x as usize] = vx.wrapping_add(vy);
    }

    /// `8xy5`: `VF` = whether `Vx >= Vy`, then `Vx = Vx - Vy` modulo 256.
    fn sub_vx_vy(&mut self, x: u8, y: u8)
        requires
            x < 16,
            y < 16,
        ensures
            final(self)@ == with_flag_then_reg(
                old(self)@,
                flag(old(self)@.v[x as int] >= old(self)@.v[y as int]),
                x,
                wrap8(old(self)@.v[x as int] - old(self)@.v[y as int]),
            ),
    {
        proof {
            use_type_invariant(&*self);
        }
        let vx: u8 = self.v_reg[x as usize];
        let vy: u8 = self.v_reg[y as usize];
        let no_borrow: u8 = if vx >= vy {
            1
        } else {
            0
        };
        self.v_reg[0xF] = no_borrow;
        self.v_reg[x as usize] = vx.wrapping_sub(vy);
    }

    /// `8xy6`: `VF` = the low bit of `Vx`, then `Vx` is halved.
    fn shr_vx(&mut self, x: u8)
        requires
            x < 16,
        ensures
            final(self)@ == with_flag_then_reg(
                old(self)@,
                old(self)@.v[x as int] % 2,
                x,
                old(self)@.v[x as int] / 2,
            ),
    {
        proof {
            use_type_invariant(&*self);
        }
        let vx: u8 = self.v_reg[x as usize];
        assert(vx & 1 == vx % 2 && vx >> 1 == vx / 2) by (bit_vector);
        self.v_reg[0xF] = vx & 1;
        self.v_reg[x as usize] = vx >> 1;
    }

    /// `8xy7`: `VF` = whether `Vy >= Vx`, then `Vx = Vy - Vx` modulo 256.
    fn subn_vx_vy(&mut self, x: u8, y: u8)
        requires
            x < 16,
            y < 16,
        ensures
            final(self)@ == with_flag_then_reg(
                old(self)@,
                flag(old(self)@.v[y as int] >= old(self)@.v[x as int]),
                x,
                wrap8(old(self)@.v[y as int] - old(self)@.v[x as int]),
            ),
    {
        proof {
            use_type_invariant(&*self);
        }
        let vx: u8 = self.v_reg[x as usize];
        let vy: u8 = self.v_reg[y as usize];
        let no_borrow: u8 = if vy >= vx {
            1
        } else {
            0
        };
        self.v_reg[0xF] = no_borrow;
        self.v_reg[x as usize] = vy.wrapping_sub(vx);
    }

    /// `8xyE`: `VF` = the high bit of `Vx`, then `Vx` is doubled modulo 256.
    fn shl_vx(&mut self, x: u8)
        requires
            x < 16,
        ensures
            final(self)@ == with_flag_then_reg(
                old(self)@,
                old(self)@.v[x as int] / 128,
                x,
                wrap8(old(self)@.v[x as int] * 2),
            ),
    {
        proof {
            use_type_invariant(&*self);
        }
        let vx: u8 = self.v_reg[x as usize];
        assert((vx >> 7) & 1 == vx / 128 && vx << 1 == (vx * 2) % 256) by (bit_vector);
        self.v_reg[0xF] = (vx >> 7) & 1;
        self.v_reg[x as usize] = vx << 1;
    }

    /// `9xy0`: skips the next instruction if `Vx != Vy`.
    fn sne_vx_vy(&mut self, x: u8, y: u8)
        requires
            x < 16,
            y < 16,
        ensures
            final(self)@ == skip_if(old(self)@, old(self)@.v[x as int] != old(self)@.v[y as int]),
    {
        proof {
            use_type_invariant(&*self);
        }
        if self.v_reg[x as usize] != self.v_reg[y as usize] {
            self.pc = self.pc.wrapping_add(2);
        }
    }

    /// `Annn`: `I = addr`.
    fn ld_i_addr(&mut self, addr: u16)
        ensures
            final(self)@ == (State { i: addr, ..old(self)@ }),
    {
        proof {
            use_type_invariant(&*self);
        }
        self.i_reg = addr;
    }

    /// `Bnnn`: jumps to `V0 + addr`.
    fn jp_v0_addr(&mut self, addr: u16)
        ensures
            final(self)@ == (State { pc: wrap16(old(self)@.v[0] + addr), ..old(self)@ }),
    {
        proof {
            use_type_invariant(&*self);
        }
        self.pc = (self.v_reg[0] as u16).wrapping_add(addr);
    }

    /// `Cxkk`: `Vx = rnd AND kk`, where `rnd` is the byte that was drawn.
    fn rnd_vx_kk(&mut self, x: u8, kk: u8, rnd: u8)
        requires
            x < 16,
        ensures
            final(self)@ == with_reg(old(self)@, x, rnd & kk),
    {
        proof {
            use_type_invariant(&*self);
        }
        self.v_reg[x as usize] = rnd & kk;
    }

    /// `Dxyn`: draws the `n`-row sprite at `I` at (`Vx` mod 64, `Vy` mod 32),
    /// clipped at the screen edges; `VF` = whether a lit pixel went dark.
    fn drw_vx_vy_n(&mut self, x: u8, y: u8, n: u8)
        requires
            x < 16,
            y < 16,
            n < 16,
        ensures
            final(self)@ == drawn(old(self)@, x, y, n),
    {
        proof {
            use_type_invariant(&*self);
        }
        let x0: u8 = self.v_reg[x as usize] % 64;
        let y0: u8 = self.v_reg[y as usize] % 32;
        let hit: bool = draw_sprite(&mut self.screen, &self.ram, self.i_reg, n, x0, y0);
        self.v_reg[0xF] = if hit {
            1
        } else {
            0
        };
    }

    /// `Ex9E`: skips the next instruction if the key that the low nibble of
    /// `Vx` names is held down.
    fn skp_vx(&mut self, x: u8)
        requires
            x < 16,
        ensures
            final(self)@ == skip_if(
                old(self)@,
                old(self)@.keys[(old(self)@.v[x as int] % 16) as int],
            ),
    {
        proof {
            use_type_invariant(&*self);
        }
        if self.keys[(self.v_reg[x as usize] % 16) as usize] {
            self.pc = self.pc.wrapping_add(2);
        }
    }

    /// `ExA1`: skips the next instruction if the key that the low nibble of
    /// `Vx` names is not held down.
    fn sknp_vx(&mut self, x: u8)
        requires
            x < 16,
        ensures
            final(self)@ == skip_if(
                old(self)@,
                !old(self)@.keys[(old(self)@.v[x as int] % 16) as int],
            ),
    {
        proof {
            use_type_invariant(&*self);
        }
        if !self.keys[(self.v_reg[x as usize] % 16) as usize] {
            self.pc = self.pc.wrapping_add(2);
        }
    }

    /// `Fx07`: `Vx` = delay timer.
    fn ld_vx_dt(&mut self, x: u8)
        requires
            x < 16,
        ensures
            final(self)@ == with_reg(old(self)@, x, old(self)@.delay),
    {
        proof {
            use_type_invariant(&*self);
        }
        self.v_reg[x as usize] = self.dt;
    }

    /// `Fx0A`: suspends the machine until a key is pressed; `Vx` will
    /// receive that key's number.
    fn ld_vx_k(&mut self, x: u8)
        requires
            x < 16,
        ensures
            final(self)@ == (State { waiting: Some(x), ..old(self)@ }),
    {
        proof {
            use_type_invariant(&*self);
        }
        self.waiting = Some(x);
    }

    /// `Fx15`: delay timer = `Vx`.
    fn ld_dt_vx(&mut self, x: u8)
        requires
            x < 16,
        ensures
            final(self)@ == (State { delay: old(self)@.v[x as int], ..old(self)@ }),
    {
        proof {
            use_type_invariant(&*self);
        }
        self.dt = self.v_reg[x as usize];
    }

    /// `Fx18`: sound timer = `Vx`.
    fn ld_st_vx(&mut self, x: u8)
        requires
            x < 16,
        ensures
            final(self)@ == (State { sound: old(self)@.v[x as int], ..old(self)@ }),
    {
        proof {
            use_type_invariant(&*self);
        }
        self.st = self.v_reg[x as usize];
    }

    /// `Fx1E`: `I = I + Vx` modulo 65536; the flag register is not touched.
    fn add_i_vx(&mut self, x: u8)
        requires
            x < 16,
        ensures
            final(self)@ == (State {
                i: wrap16(old(self)@.i + old(self)@.v[x as int]),
                ..old(self)@
            }),
    {
        proof {
            use_type_invariant(&*self);
        }
        self.i_reg = self.i_reg.wrapping_add(self.v_reg[x as usize] as u16);
    }

    /// `Fx29`: `I` = the glyph table's address plus five times `Vx`.
    fn ld_f_vx(&mut self, x: u8)
        requires
            x < 16,
        ensures
            final(self)@ == (State {
                i: wrap16(FONT_BASE + 5 * old(self)@.v[x as int]),
                ..old(self)@
            }),
    {
        proof {
            use_type_invariant(&*self);
        }
        self.i_reg = FONT_BASE + 5 * (self.v_reg[x as usize] as u16);
    }

    /// `Fx33`: stores the hundreds, tens and units of `Vx` at `I`, `I + 1`
    /// and `I + 2`.
    fn ld_b_vx(&mut self, x: u8)
        requires
            x < 16,
        ensures
            final(self)@ == (State {
                memory: bcd_stored(old(self)@, old(self)@.v[x as int]),
                ..old(self)@
            }),
    {
        proof {
            use_type_invariant(&*self);
        }
        let vx: u8 = self.v_reg[x as usize];
        let base: usize = self.i_reg as usize;
        self.ram[base % 4096] = vx / 100;
        self.ram[(base + 1) % 4096] = (vx / 10) % 10;
        self.ram[(base + 2) % 4096] = vx % 10;
    }

    /// `Fx55`: stores `V0..=Vx` at `I..=I+x`.
    fn ld_i_vx(&mut self, x: u8)
        requires
            x < 16,
        ensures
            final(self)@ == (State { memory: regs_stored(old(self)@, x), ..old(self)@ }),
    {
        proof {
            use_type_invariant(&*self);
        }
        let mut k: u8 = 0;
        while k <= x
            invariant
                x < 16,
                k <= x + 1,
                self.sp <= 16,
                self.waiting matches Some(w) ==> w < 16,
                self@ == (State { memory: self.ram@, ..old(self)@ }),
                forall|a: int|
                    0 <= a < 4096 ==> self.ram[a] == if offset_from(a, self.i_reg as int) < k {
                        old(self)@.v[#[trigger] offset_from(a, self.i_reg as int)]
                    } else {
                        old(self)@.memory[a]
                    },
            decreases x + 1 - k,
        {
            let addr: usize = ((self.i_reg as usize) + (k as usize)) % 4096;
            assert(offset_from(addr as int, self.i_reg as int) == k);
            assert(forall|a: int|
                0 <= a < 4096 && a != addr ==> #[trigger] offset_from(a, self.i_reg as int)
                    != k as int);
            self.ram[addr] = self.v_reg[k as usize];
            k = k + 1;
        }
        assert(self.ram@ =~= regs_stored(old(self)@, x));
    }

    /// `Fx65`: loads `V0..=Vx` from `I..=I+x`.
    fn ld_vx_i(&mut self, x: u8)
        requires
            x < 16,
        ensures
            final(self)@ == (State { v: regs_loaded(old(self)@, x), ..old(self)@ }),
    {
        proof {
            use_type_invariant(&*self);
        }
        let mut k: u8 = 0;
        while k <= x
            invariant
                x < 16,
                k <= x + 1,
                self.sp <= 16,
                self.waiting matches Some(w) ==> w < 16,
                self@ == (State { v: self.v_reg@, ..old(self)@ }),
                forall|j: int|
                    0 <= j < 16 ==> self.v_reg[j] == if j < k {
                        old(self)@.cell(old(self)@.i + j)
                    } else {
                        old(self)@.v[j]
                    },
            decreases x + 1 - k,
        {
            let addr: usize = ((self.i_reg as usize) + (k as usize)) % 4096;
            self.v_reg[k as usize] = self.ram[addr];
            k = k + 1;
        }
        assert(self.v_reg@ =~= regs_loaded(old(self)@, x));
    }

    /// Executes the instruction word `op`, with `rnd` as the byte that the
    /// random source gave. The program counter is taken to be past `op`
    /// already. A fault leaves the machine untouched.
    pub fn execute(&mut self, op: u16, rnd: u8) -> (r: Result<(), Fault>)
        ensures
            agrees(executed(old(self)@, op, rnd), old(self)@, final(self)@, r),
            final(self)@.wf(),
    {
        proof {
            use_type_invariant(&*self);
        }
        let r = match parse(op) {
            None => Err(Fault::InvalidOpcode(op)),
            Some(ins) => match ins {
                Instruction::Nop => Ok(()),
                Instruction::Cls => {
                    self.cls();
                    Ok(())
                },
                Instruction::Ret => self.ret(),
                Instruction::Jp { addr } => {
                    self.jp_addr(addr);
                    Ok(())
                },
                Instruction::Call { addr } => self.call(addr),
                Instruction::SeVxKk { x, kk } => {
                    self.se_vx_kk(x, kk);
                    Ok(())
                },
                Instruction::SneVxKk { x, kk } => {
                    self.sne_vx_kk(x, kk);
                    Ok(())
                },
                Instruction::SeVxVy { x, y } => {
                    self.se_vx_vy(x, y);
                    Ok(())
                },
                Instruction::LdVxKk { x, kk } => {
                    self.ld_vx_kk(x, kk);
                    Ok(())
                },
                Instruction::AddVxKk { x, kk } => {
                    self.add_vx_kk(x, kk);
                    Ok(())
                },
                Instruction::LdVxVy { x, y } => {
                    self.ld_vx_vy(x, y);
                    Ok(())
                },
                Instruction::OrVxVy { x, y } => {
                    self.or_vx_vy(x, y);
                    Ok(())
                },
                Instruction::AndVxVy { x, y } => {
                    self.and_vx_vy(x, y);
                    Ok(())
                },
                Instruction::XorVxVy { x, y } => {
                    self.xor_vx_vy(x, y);
                    Ok(())
                },
                Instruction::AddVxVy { x, y } => {
                    self.add_vx_vy(x, y);
                    Ok(())
                },
                Instruction::SubVxVy { x, y } => {
                    self.sub_vx_vy(x, y);
                    Ok(())
                },
                Instruction::ShrVx { x } => {
                    self.shr_vx(x);
                    Ok(())
                },
                Instruction::SubnVxVy { x, y } => {
                    self.subn_vx_vy(x, y);
                    Ok(())
                },
                Instruction::ShlVx { x } => {
                    self.shl_vx(x);
                    Ok(())
                },
                Instruction::SneVxVy { x, y } => {
                    self.sne_vx_vy(x, y);
                    Ok(())
                },
                Instruction::LdIAddr { addr } => {
                    self.ld_i_addr(addr);
                    Ok(())
                },
                Instruction::JpV0Addr { addr } => {
                    self.jp_v0_addr(addr);
                    Ok(())
                },
                Instruction::RndVxKk { x, kk } => {
                    self.rnd_vx_kk(x, kk, rnd);
                    Ok(())
                },
                Instruction::DrwVxVyN { x, y, n } => {
                    self.drw_vx_vy_n(x, y, n);
                    Ok(())
                },
                Instruction::SkpVx { x } => {
                    self.skp_vx(x);
                    Ok(())
                },
                Instruction::SknpVx { x } => {
                    self.sknp_vx(x);
                    Ok(())
                },
                Instruction::LdVxDt { x } => {
                    self.ld_vx_dt(x);
                    Ok(())
                },
                Instruction::LdVxK { x } => {
                    self.ld_vx_k(x);
                    Ok(())
                },
                Instruction::LdDtVx { x } => {
                    self.ld_dt_vx(x);
                    Ok(())
                },
                Instruction::LdStVx { x } => {
                    self.ld_st_vx(x);
                    Ok(())
                },
                Instruction::AddIVx { x } => {
                    self.add_i_vx(x);
                    Ok(())
                },
                Instruction::LdFVx { x } => {
                    self.ld_f_vx(x);
                    Ok(())
                },
                Instruction::LdBVx { x } => {
                    self.ld_b_vx(x);
                    Ok(())
                },
                Instruction::LdIVx { x } => {
                    self.ld_i_vx(x);
                    Ok(())
                },
                Instruction::LdVxI { x } => {
                    self.ld_vx_i(x);
                    Ok(())
                },
            },
        };
        proof {
            use_type_invariant(&*self);
        }
        r
    }

    /// One step with `rnd` as the byte that the random source gives: a
    /// suspended machine stays as it is; otherwise the instruction at the
    /// program counter is fetched and executed. A fault leaves the machine
    /// as it was before the step.
    pub fn tick_with(&mut self, rnd: u8) -> (r: Result<(), Fault>)
        ensures
            agrees(stepped(old(self)@, rnd), old(self)@, final(self)@, r),
            final(self)@.wf(),
    {
        proof {
            use_type_invariant(&*self);
        }
        if self.waiting.is_some() {
            return Ok(());
        }
        let here: u16 = self.pc;
        let op: u16 = self.fetch();
        let ghost fetched = self@;
        let r = self.execute(op, rnd);
        match r {
            Ok(()) => Ok(()),
            Err(f) => {
                proof {
                    use_type_invariant(&*self);
                }
                assert(self@ == fetched);
                self.pc = here;
                assert(self@ =~= old(self)@);
                Err(f)
            },
        }
    }

    /// Whether the next step executes the instruction that draws a random
    /// byte.
    fn next_is_random(&self) -> (b: bool)
        ensures
            b == (self@.waiting is None && instruction_of(self@.opcode()) matches Some(
                Instruction::RndVxKk { .. },
            )),
    {
        if self.waiting.is_some() {
            return false;
        }
        let high: u8 = self.ram[(self.pc % 4096) as usize];
        let low: u8 = self.ram[(self.pc.wrapping_add(1) % 4096) as usize];
        assert(self.pc.wrapping_add(1) % 4096 == (self.pc + 1) % 4096);
        match parse(join_bytes(high, low)) {
            Some(Instruction::RndVxKk { .. }) => true,
            _ => false,
        }
    }

    /// One step of the machine. A random byte is drawn if the instruction
    /// at the program counter asks for one, and only then, so the outcome is
    /// that of [`Emu::tick_with`] for some byte. For every other instruction
    /// the byte does not matter, and the outcome is that for the byte zero.
    pub fn tick(&mut self) -> (r: Result<(), Fault>)
        ensures
            exists|rnd: u8| agrees(stepped(old(self)@, rnd), old(self)@, final(self)@, r),
            !(old(self)@.waiting is None && instruction_of(old(self)@.opcode()) matches Some(
                Instruction::RndVxKk { .. },
            )) ==> agrees(stepped(old(self)@, 0), old(self)@, final(self)@, r),
            final(self)@.wf(),
    {
        let rnd: u8 = if self.next_is_random() {
            random_byte()
        } else {
            0
        };
        self.tick_with(rnd)
    }

    /// Reports that key `idx` was pressed or released. A press ends a
    /// suspension: the awaited register receives `idx`.
    pub fn keypress(&mut self, idx: usize, pressed: bool)
        requires
            idx < 16,
        ensures
            final(self)@ == key_set(old(self)@, idx as int, pressed),
            final(self)@.wf(),
    {
        proof {
            use_type_invariant(&*self);
        }
        self.keys[idx] = pressed;
        if pressed {
            match self.waiting {
                Some(x) => {
                    self.v_reg[x as usize] = idx as u8;
                    self.waiting = None;
                },
                None => {},
            }
        }
    }

    /// Copies the program `data` into memory from the program start on.
    pub fn load(&mut self, data: &[u8])
        requires
            data@.len() <= 4096 - 0x200,
        ensures
            final(self)@ == loaded(old(self)@, data@),
            final(self)@.wf(),
    {
        proof {
            use_type_invariant(&*self);
        }
        let mut k: usize = 0;
        while k < data.len()
            invariant
                k <= data@.len() <= 4096 - 0x200,
                self.sp <= 16,
                self.waiting matches Some(w) ==> w < 16,
                self@ == (State { memory: self.ram@, ..old(self)@ }),
                forall|a: int|
                    0 <= a < 4096 ==> self.ram[a] == if START_ADDR <= a < START_ADDR + k {
                        data@[a - START_ADDR]
                    } else {
                        old(self)@.memory[a]
                    },
            decreases data@.len() - k,
        {
            self.ram[START_ADDR as usize + k] = data[k];
            k = k + 1;
        }
        assert(self.ram@ =~= loaded(old(self)@, data@).memory);
    }

    /// The framebuffer: 64 by 32 pixels, row by row from the top.
    pub fn get_display(&self) -> (screen: &[bool])
        ensures
            screen@ == self@.screen,
            screen@.len() == 2048,
    {
        &self.screen
    }

    /// The pixel in column `x` of row `y`.
    pub fn pixel(&self, x: usize, y: usize) -> (lit: bool)
        requires
            x < 64,
            y < 32,
        ensures
            lit == self@.pixel(x as int, y as int),
    {
        self.screen[y * 64 + x]
    }

    /// The program counter.
    pub fn pc(&self) -> (pc: u16)
        ensures
            pc == self@.pc,
    {
        self.pc
    }

    /// The index register `I`.
    pub fn index(&self) -> (i: u16)
        ensures
            i == self@.i,
    {
        self.i_reg
    }

    /// The general register `Vx`.
    pub fn register(&self, x: usize) -> (val: u8)
        requires
            x < 16,
        ensures
            val == self@.v[x as int],
    {
        self.v_reg[x]
    }

    /// The memory cell that the low twelve bits of `addr` select.
    pub fn memory(&self, addr: u16) -> (val: u8)
        ensures
            val == self@.cell(addr as int),
    {
        self.ram[(addr % 4096) as usize]
    }

    /// The number of return addresses on the stack.
    pub fn stack_depth(&self) -> (depth: usize)
        ensures
            depth == self@.stack.len(),
            depth <= 16,
    {
        proof {
            use_type_invariant(self);
        }
        self.sp as usize
    }

    /// The delay timer.
    pub fn delay_timer(&self) -> (t: u8)
        ensures
            t == self@.delay,
    {
        self.dt
    }

    /// The sound timer. A tone is requested while it is above zero.
    pub fn sound_timer(&self) -> (t: u8)
        ensures
            t == self@.sound,
    {
        self.st
    }

    /// Whether key `idx` is held down.
    pub fn key(&self, idx: usize) -> (down: bool)
        requires
            idx < 16,
        ensures
            down == self@.keys[idx as int],
    {
        self.keys[idx]
    }

    /// The register that awaits a key press, while the machine is suspended.
    pub fn awaiting_key(&self) -> (x: Option<u8>)
        ensures
            x == self@.waiting,
            x matches Some(reg) ==> reg < 16,
    {
        proof {
            use_type_invariant(self);
        }
        self.waiting
    }
}

} // verus!
