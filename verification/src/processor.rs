//! The execution engine: owns all machine state and drives one
//! fetch-decode-execute step per tick.  Every operation is specified
//! against the model in `machine`.

use vstd::prelude::*;
use crate::bits::{find_lowest_key, is_key_pressed, sprite_row_mask};
use crate::font::{font_seq, font_set};
use crate::framebuffer::spec_draw;
use crate::machine::{
    initial_state, is_rand_op, lemma_decode_bounds, loaded_ram, spec_capture_key,
    spec_dispatch, spec_fetch, spec_load, spec_op_00e0, spec_op_00ee, spec_op_2nnn,
    spec_op_dxyn, spec_op_fx0a, spec_op_fx33, spec_op_fx55, spec_op_fx65, spec_set_delay,
    spec_set_i, spec_set_sound, spec_skip_if, spec_step, spec_tick, spec_tick_pre,
    tick_uses_rand, upd_v, upd_vf, wrap_sub_u8, Fault, FaultKind, MachineState, ProgramCounter,
};

verus! {

/// What one tick hands back to the host: a snapshot of the framebuffer rows,
/// whether a drawing or clear opcode ran this tick, and whether the tone
/// should be sounding.
#[derive(Debug)]
pub struct OutputState {
    pub vram: Vec<u64>,
    pub vram_changed: bool,
    pub beep: bool,
}

/// The machine itself.  Fields mirror the model state one for one; the
/// host may inspect them freely between ticks.
pub struct Processor {
    pub vram: Vec<u64>,
    pub vram_changed: bool,
    pub ram: Vec<u8>,
    pub stack: Vec<usize>,
    pub v: Vec<u8>,
    pub i: usize,
    pub pc: usize,
    pub sp: usize,
    pub delay_timer: u8,
    pub sound_timer: u8,
    pub keypad: u16,
    pub keypad_wait: bool,
    pub keypad_wait_register: usize,
}

impl View for Processor {
    type V = MachineState;

    open spec fn view(&self) -> MachineState {
        MachineState {
            vram: self.vram@,
            vram_changed: self.vram_changed,
            ram: self.ram@,
            stack: self.stack@,
            v: self.v@,
            i: self.i,
            pc: self.pc,
            sp: self.sp,
            delay_timer: self.delay_timer,
            sound_timer: self.sound_timer,
            keypad: self.keypad,
            keypad_wait: self.keypad_wait,
            keypad_wait_register: self.keypad_wait_register,
        }
    }
}

/// A vector of 32 zeroed framebuffer rows.
fn zero_rows() -> (v: Vec<u64>)
    ensures
        v@ == Seq::new(32, |r: int| 0u64),
{
    let mut v: Vec<u64> = Vec::new();
    while v.len() < 32
        invariant
            v@.len() <= 32,
            forall|r: int| 0 <= r < v@.len() ==> v@[r] == 0u64,
        decreases 32 - v.len(),
    {
        v.push(0);
    }
    proof {
        assert(v@ =~= Seq::new(32, |r: int| 0u64));
    }
    v
}

/// A copy of the framebuffer rows, for the output snapshot.
fn copy_rows(src: &Vec<u64>) -> (v: Vec<u64>)
    ensures
        v@ == src@,
{
    let mut v: Vec<u64> = Vec::new();
    let mut k: usize = 0;
    while k < src.len()
        invariant
            k <= src@.len(),
            v@ == src@.subrange(0, k as int),
        decreases src@.len() - k,
    {
        v.push(src[k]);
        k = k + 1;
        proof {
            assert(v@ =~= src@.subrange(0, k as int));
        }
    }
    proof {
        assert(v@ =~= src@);
    }
    v
}

impl Processor {
    /// A freshly constructed machine: memory zeroed but for the preloaded
    /// font table, program counter at the program start address.
    pub fn new() -> (p: Processor)
        ensures
            p@ == initial_state(),
            p@.wf(),
    {
        let mut ram = font_set();
        while ram.len() < 4096
            invariant
                80 <= ram@.len() <= 4096,
                ram@.subrange(0, 80) == font_seq(),
                forall|a: int| 80 <= a < ram@.len() ==> ram@[a] == 0u8,
            decreases 4096 - ram.len(),
        {
            ram.push(0);
            proof {
                assert(ram@.subrange(0, 80) =~= font_seq());
            }
        }
        let mut stack: Vec<usize> = Vec::new();
        while stack.len() < 16
            invariant
                stack@.len() <= 16,
                forall|k: int| 0 <= k < stack@.len() ==> stack@[k] == 0usize,
            decreases 16 - stack.len(),
        {
            stack.push(0);
        }
        let mut v: Vec<u8> = Vec::new();
        while v.len() < 16
            invariant
                v@.len() <= 16,
                forall|k: int| 0 <= k < v@.len() ==> v@[k] == 0u8,
            decreases 16 - v.len(),
        {
            v.push(0);
        }
        let p = Processor {
            vram: zero_rows(),
            vram_changed: false,
            ram: ram,
            stack: stack,
            v: v,
            i: 0,
            pc: 0x200,
            sp: 0,
            delay_timer: 0,
            sound_timer: 0,
            keypad: 0,
            keypad_wait: false,
            keypad_wait_register: 0,
        };
        proof {
            assert(p@.ram =~= initial_state().ram);
            assert(p@.stack =~= initial_state().stack);
            assert(p@.v =~= initial_state().v);
            assert(p@ =~= initial_state());
        }
        p
    }

    /// Copy a program into memory starting at the program start address;
    /// bytes that would land past the end of the address space are dropped.
    /// No other state changes.
    pub fn load(&mut self, data: &[u8])
        requires
            old(self)@.wf(),
        ensures
            final(self)@.wf(),
            final(self)@ == spec_load(old(self)@, data@),
    {
        let ghost s0 = self@;
        let mut k: usize = 0;
        while k < data.len() && 0x200 + k < 4096
            invariant
                s0 == old(self)@,
                s0.wf(),
                k <= data@.len(),
                0x200 + k <= 4096,
                self@.ram.len() == 4096,
                forall|a: int| 0 <= a < 4096 && 0x200 <= a && a - 0x200 < k as int
                    ==> #[trigger] self@.ram[a] == data@[a - 0x200],
                forall|a: int| 0 <= a < 4096 && !(0x200 <= a && a - 0x200 < k as int)
                    ==> #[trigger] self@.ram[a] == s0.ram[a],
                self@ == (MachineState { ram: self@.ram, ..s0 }),
            decreases data@.len() - k,
        {
            self.ram[0x200 + k] = data[k];
            k = k + 1;
        }
        proof {
            assert(self@.ram =~= loaded_ram(s0.ram, data@));
            assert(self@ =~= spec_load(s0, data@));
        }
    }

    // CLS: clear the display.
    fn op_00e0(&mut self) -> (r: ProgramCounter)
        requires
            old(self)@.wf(),
        ensures
            final(self)@ == spec_op_00e0(old(self)@),
            r == ProgramCounter::Next,
    {
        self.vram = zero_rows();
        self.vram_changed = true;
        ProgramCounter::Next
    }

    // RET: return from a subroutine, popping the stack into the jump target.
    fn op_00ee(&mut self) -> (r: Result<ProgramCounter, FaultKind>)
        requires
            old(self)@.wf(),
        ensures
            old(self)@.sp == 0 ==> final(self)@ == old(self)@ && r == Err::<
                ProgramCounter,
                FaultKind,
            >(FaultKind::StackUnderflow),
            old(self)@.sp > 0 ==> final(self)@ == spec_op_00ee(old(self)@).0 && r == Ok::<
                ProgramCounter,
                FaultKind,
            >(spec_op_00ee(old(self)@).1),
    {
        if self.sp == 0 {
            return Err(FaultKind::StackUnderflow);
        }
        self.sp = self.sp - 1;
        Ok(ProgramCounter::Jump(self.stack[self.sp]))
    }

    // JP addr: jump to nnn.
    fn op_1nnn(&mut self, nnn: usize) -> (r: ProgramCounter)
        ensures
            final(self)@ == old(self)@,
            r == ProgramCounter::Jump(nnn),
    {
        ProgramCounter::Jump(nnn)
    }

    // CALL addr: push the address of the following instruction, jump to nnn.
    fn op_2nnn(&mut self, nnn: usize) -> (r: Result<ProgramCounter, FaultKind>)
        requires
            old(self)@.wf(),
            old(self)@.pc + 2 <= 0xFFFF,
        ensures
            old(self)@.sp == 16 ==> final(self)@ == old(self)@ && r == Err::<
                ProgramCounter,
                FaultKind,
            >(FaultKind::StackOverflow),
            old(self)@.sp < 16 ==> final(self)@ == spec_op_2nnn(old(self)@, nnn).0 && r == Ok::<
                ProgramCounter,
                FaultKind,
            >(spec_op_2nnn(old(self)@, nnn).1),
    {
        if self.sp == 16 {
            return Err(FaultKind::StackOverflow);
        }
        self.stack[self.sp] = self.pc + 2;
        self.sp = self.sp + 1;
        Ok(ProgramCounter::Jump(nnn))
    }

    // SE Vx, byte: skip the next instruction if Vx = kk.
    fn op_3xkk(&mut self, x: usize, kk: u8) -> (r: ProgramCounter)
        requires
            old(self)@.wf(),
            x < 16,
        ensures
            final(self)@ == old(self)@,
            r == spec_skip_if(old(self)@.v[x as int] == kk),
    {
        ProgramCounter::skip_if(self.v[x] == kk)
    }

    // SNE Vx, byte: skip the next instruction if Vx != kk.
    fn op_4xkk(&mut self, x: usize, kk: u8) -> (r: ProgramCounter)
        requires
            old(self)@.wf(),
            x < 16,
        ensures
            final(self)@ == old(self)@,
            r == spec_skip_if(old(self)@.v[x as int] != kk),
    {
        ProgramCounter::skip_if(self.v[x] != kk)
    }

    // SE Vx, Vy: skip the next instruction if Vx = Vy.
    fn op_5xy0(&mut self, x: usize, y: usize) -> (r: ProgramCounter)
        requires
            old(self)@.wf(),
            x < 16,
            y < 16,
        ensures
            final(self)@ == old(self)@,
            r == spec_skip_if(old(self)@.v[x as int] == old(self)@.v[y as int]),
    {
        ProgramCounter::skip_if(self.v[x] == self.v[y])
    }

    // LD Vx, byte: set Vx = kk.
    fn op_6xkk(&mut self, x: usize, kk: u8) -> (r: ProgramCounter)
        requires
            old(self)@.wf(),
            x < 16,
        ensures
            final(self)@ == upd_v(old(self)@, x, kk),
            r == ProgramCounter::Next,
    {
        self.v[x] = kk;
        ProgramCounter::Next
    }

    // ADD Vx, byte: set Vx = Vx + kk, wrapping at 8 bits, no flag update.
    fn op_7xkk(&mut self, x: usize, kk: u8) -> (r: ProgramCounter)
        requires
            old(self)@.wf(),
            x < 16,
        ensures
            final(self)@ == upd_v(
                old(self)@,
                x,
                ((old(self)@.v[x as int] + kk) % 256) as u8,
            ),
            r == ProgramCounter::Next,
    {
        let vx = self.v[x] as u16;
        let val = kk as u16;
        let result = vx + val;
        self.v[x] = (result % 256) as u8;
        ProgramCounter::Next
    }

    // LD Vx, Vy: set Vx = Vy.
    fn op_8xy0(&mut self, x: usize, y: usize) -> (r: ProgramCounter)
        requires
            old(self)@.wf(),
            x < 16,
            y < 16,
        ensures
            final(self)@ == upd_v(old(self)@, x, old(self)@.v[y as int]),
            r == ProgramCounter::Next,
    {
        self.v[x] = self.v[y];
        ProgramCounter::Next
    }

    // OR Vx, Vy.
    fn op_8xy1(&mut self, x: usize, y: usize) -> (r: ProgramCounter)
        requires
            old(self)@.wf(),
            x < 16,
            y < 16,
        ensures
            final(self)@ == upd_v(
                old(self)@,
                x,
                old(self)@.v[x as int] | old(self)@.v[y as int],
            ),
            r == ProgramCounter::Next,
    {
        self.v[x] = self.v[x] | self.v[y];
        ProgramCounter::Next
    }

    // AND Vx, Vy.
    fn op_8xy2(&mut self, x: usize, y: usize) -> (r: ProgramCounter)
        requires
            old(self)@.wf(),
            x < 16,
            y < 16,
        ensures
            final(self)@ == upd_v(
                old(self)@,
                x,
                old(self)@.v[x as int] & old(self)@.v[y as int],
            ),
            r == ProgramCounter::Next,
    {
        self.v[x] = self.v[x] & self.v[y];
        ProgramCounter::Next
    }

    // XOR Vx, Vy.
    fn op_8xy3(&mut self, x: usize, y: usize) -> (r: ProgramCounter)
        requires
            old(self)@.wf(),
            x < 16,
            y < 16,
        ensures
            final(self)@ == upd_v(
                old(self)@,
                x,
                old(self)@.v[x as int] ^ old(self)@.v[y as int],
            ),
            r == ProgramCounter::Next,
    {
        self.v[x] = self.v[x] ^ self.v[y];
        ProgramCounter::Next
    }

    // ADD Vx, Vy: 8-bit sum into Vx, carry into the flag register.
    fn op_8xy4(&mut self, x: usize, y: usize) -> (r: ProgramCounter)
        requires
            old(self)@.wf(),
            x < 16,
            y < 16,
        ensures
            final(self)@ == upd_vf(
                old(self)@,
                x,
                ((old(self)@.v[x as int] + old(self)@.v[y as int]) % 256) as u8,
                if old(self)@.v[x as int] + old(self)@.v[y as int] > 255 { 1u8 } else { 0u8 },
            ),
            r == ProgramCounter::Next,
    {
        let vx = self.v[x] as u16;
        let vy = self.v[y] as u16;
        let result = vx + vy;
        self.v[x] = (result % 256) as u8;
        self.v[0x0f] = if result > 0xFF { 1 } else { 0 };
        ProgramCounter::Next
    }

    // SUB Vx, Vy: flag set iff no borrow, then Vx = Vx - Vy wrapping.
    fn op_8xy5(&mut self, x: usize, y: usize) -> (r: ProgramCounter)
        requires
            old(self)@.wf(),
            x < 16,
            y < 16,
        ensures
            final(self)@ == upd_vf(
                old(self)@,
                x,
                wrap_sub_u8(old(self)@.v[x as int], old(self)@.v[y as int]),
                if old(self)@.v[x as int] >= old(self)@.v[y as int] { 1u8 } else { 0u8 },
            ),
            r == ProgramCounter::Next,
    {
        let vx = self.v[x];
        let vy = self.v[y];
        let temp: u8 = if vx >= vy { 1 } else { 0 };
        self.v[x] = if vx >= vy { vx - vy } else { ((vx as u16 + 256 - vy as u16) % 256) as u8 };
        self.v[0xf] = temp;
        ProgramCounter::Next
    }

    // SHR Vx: flag is the pre-shift low bit, then Vx >>= 1.
    fn op_8x06(&mut self, x: usize) -> (r: ProgramCounter)
        requires
            old(self)@.wf(),
            x < 16,
        ensures
            final(self)@ == upd_vf(
                old(self)@,
                x,
                old(self)@.v[x as int] >> 1u8,
                old(self)@.v[x as int] & 1,
            ),
            r == ProgramCounter::Next,
    {
        let temp = self.v[x] & 1;
        self.v[x] = self.v[x] >> 1;
        self.v[0xf] = temp;
        ProgramCounter::Next
    }

    // SUBN Vx, Vy: flag set iff no borrow, then Vx = Vy - Vx wrapping.
    fn op_8xy7(&mut self, x: usize, y: usize) -> (r: ProgramCounter)
        requires
            old(self)@.wf(),
            x < 16,
            y < 16,
        ensures
            final(self)@ == upd_vf(
                old(self)@,
                x,
                wrap_sub_u8(old(self)@.v[y as int], old(self)@.v[x as int]),
                if old(self)@.v[y as int] >= old(self)@.v[x as int] { 1u8 } else { 0u8 },
            ),
            r == ProgramCounter::Next,
    {
        let vx = self.v[x];
        let vy = self.v[y];
        let temp: u8 = if vy >= vx { 1 } else { 0 };
        self.v[x] = if vy >= vx { vy - vx } else { ((vy as u16 + 256 - vx as u16) % 256) as u8 };
        self.v[0xf] = temp;
        ProgramCounter::Next
    }

    // SHL Vx: flag is the pre-shift high bit, then Vx <<= 1.
    fn op_8x0e(&mut self, x: usize) -> (r: ProgramCounter)
        requires
            old(self)@.wf(),
            x < 16,
        ensures
            final(self)@ == upd_vf(
                old(self)@,
                x,
                old(self)@.v[x as int] << 1u8,
                old(self)@.v[x as int] >> 7u8,
            ),
            r == ProgramCounter::Next,
    {
        let temp = self.v[x] >> 7;
        self.v[x] = self.v[x] << 1;
        self.v[0xf] = temp;
        ProgramCounter::Next
    }

    // SNE Vx, Vy: skip the next instruction if Vx != Vy.
    fn op_9xy0(&mut self, x: usize, y: usize) -> (r: ProgramCounter)
        requires
            old(self)@.wf(),
            x < 16,
            y < 16,
        ensures
            final(self)@ == old(self)@,
            r == spec_skip_if(old(self)@.v[x as int] != old(self)@.v[y as int]),
    {
        ProgramCounter::skip_if(self.v[x] != self.v[y])
    }

    // LD I, addr: set I = nnn.
    fn op_annn(&mut self, nnn: usize) -> (r: ProgramCounter)
        requires
            nnn <= 0xFFF,
        ensures
            final(self)@ == spec_set_i(old(self)@, nnn),
            r == ProgramCounter::Next,
    {
        self.i = nnn;
        ProgramCounter::Next
    }

    // JP V0, addr: jump to nnn plus V0.
    fn op_bnnn(&mut self, nnn: usize) -> (r: ProgramCounter)
        requires
            old(self)@.wf(),
            nnn <= 0xFFF,
        ensures
            final(self)@ == old(self)@,
            r == ProgramCounter::Jump((old(self)@.v[0] + nnn) as usize),
    {
        ProgramCounter::Jump((self.v[0] as usize) + nnn)
    }

    // RND Vx, byte: set Vx = byte AND kk, where byte came from the random
    // source.
    fn op_cxkk(&mut self, x: usize, kk: u8, byte: u8) -> (r: ProgramCounter)
        requires
            old(self)@.wf(),
            x < 16,
        ensures
            final(self)@ == upd_v(old(self)@, x, byte & kk),
            r == ProgramCounter::Next,
    {
        self.v[x] = byte & kk;
        ProgramCounter::Next
    }

    // SKP Vx: skip the next instruction if the key numbered Vx is pressed.
    fn op_ex9e(&mut self, x: usize) -> (r: ProgramCounter)
        requires
            old(self)@.wf(),
            x < 16,
        ensures
            final(self)@ == old(self)@,
            r == spec_skip_if(
                crate::bits::key_pressed(old(self)@.keypad, old(self)@.v[x as int]),
            ),
    {
        ProgramCounter::skip_if(is_key_pressed(self.keypad, self.v[x]))
    }

    // SKNP Vx: skip the next instruction if the key numbered Vx is not
    // pressed.
    fn op_exa1(&mut self, x: usize) -> (r: ProgramCounter)
        requires
            old(self)@.wf(),
            x < 16,
        ensures
            final(self)@ == old(self)@,
            r == spec_skip_if(
                !crate::bits::key_pressed(old(self)@.keypad, old(self)@.v[x as int]),
            ),
    {
        ProgramCounter::skip_if(!is_key_pressed(self.keypad, self.v[x]))
    }

    // LD Vx, DT: set Vx = delay timer.
    fn op_fx07(&mut self, x: usize) -> (r: ProgramCounter)
        requires
            old(self)@.wf(),
            x < 16,
        ensures
            final(self)@ == upd_v(old(self)@, x, old(self)@.delay_timer),
            r == ProgramCounter::Next,
    {
        self.v[x] = self.delay_timer;
        ProgramCounter::Next
    }

    // LD Vx, K: enter the waiting state for register x.
    fn op_fx0a(&mut self, x: usize) -> (r: ProgramCounter)
        requires
            old(self)@.wf(),
            x < 16,
        ensures
            final(self)@ == spec_op_fx0a(old(self)@, x),
            r == ProgramCounter::Next,
    {
        self.keypad_wait = true;
        self.keypad_wait_register = x;
        ProgramCounter::Next
    }

    // LD DT, Vx: set the delay timer = Vx.
    fn op_fx15(&mut self, x: usize) -> (r: ProgramCounter)
        requires
            old(self)@.wf(),
            x < 16,
        ensures
            final(self)@ == spec_set_delay(old(self)@, old(self)@.v[x as int]),
            r == ProgramCounter::Next,
    {
        self.delay_timer = self.v[x];
        ProgramCounter::Next
    }

    // LD ST, Vx: set the sound timer = Vx.
    fn op_fx18(&mut self, x: usize) -> (r: ProgramCounter)
        requires
            old(self)@.wf(),
            x < 16,
        ensures
            final(self)@ == spec_set_sound(old(self)@, old(self)@.v[x as int]),
            r == ProgramCounter::Next,
    {
        self.sound_timer = self.v[x];
        ProgramCounter::Next
    }

    // ADD I, Vx: set I = I + Vx, wrapping at 16 bits.
    fn op_fx1e(&mut self, x: usize) -> (r: ProgramCounter)
        requires
            old(self)@.wf(),
            x < 16,
        ensures
            final(self)@ == spec_set_i(
                old(self)@,
                ((old(self)@.i + old(self)@.v[x as int]) % 0x10000) as usize,
            ),
            r == ProgramCounter::Next,
    {
        self.i = (self.i + self.v[x] as usize) % 0x10000;
        ProgramCounter::Next
    }

    // LD F, Vx: set I = the font address of digit Vx.
    fn op_fx29(&mut self, x: usize) -> (r: ProgramCounter)
        requires
            old(self)@.wf(),
            x < 16,
        ensures
            final(self)@ == spec_set_i(old(self)@, (old(self)@.v[x as int] * 5) as usize),
            r == ProgramCounter::Next,
    {
        self.i = (self.v[x] as usize) * 5;
        ProgramCounter::Next
    }

    // LD B, Vx: the hundreds, tens and ones digits of Vx land at I, I+1, I+2.
    fn op_fx33(&mut self, x: usize) -> (r: Result<ProgramCounter, FaultKind>)
        requires
            old(self)@.wf(),
            x < 16,
        ensures
            old(self)@.i + 2 > 4095 ==> final(self)@ == old(self)@ && r == Err::<
                ProgramCounter,
                FaultKind,
            >(FaultKind::MemoryOutOfBounds),
            old(self)@.i + 2 <= 4095 ==> final(self)@ == spec_op_fx33(old(self)@, x) && r == Ok::<
                ProgramCounter,
                FaultKind,
            >(ProgramCounter::Next),
    {
        if self.i + 2 > 4095 {
            return Err(FaultKind::MemoryOutOfBounds);
        }
        let vx = self.v[x];
        self.ram[self.i] = vx / 100;
        self.ram[self.i + 1] = (vx % 100) / 10;
        self.ram[self.i + 2] = vx % 10;
        Ok(ProgramCounter::Next)
    }

    // LD [I], Vx: copy V0 through Vx into memory starting at I.
    fn op_fx55(&mut self, x: usize) -> (r: Result<ProgramCounter, FaultKind>)
        requires
            old(self)@.wf(),
            x < 16,
        ensures
            old(self)@.i + x > 4095 ==> final(self)@ == old(self)@ && r == Err::<
                ProgramCounter,
                FaultKind,
            >(FaultKind::MemoryOutOfBounds),
            old(self)@.i + x <= 4095 ==> final(self)@ == spec_op_fx55(old(self)@, x) && r == Ok::<
                ProgramCounter,
                FaultKind,
            >(ProgramCounter::Next),
    {
        if self.i + x > 4095 {
            return Err(FaultKind::MemoryOutOfBounds);
        }
        let ghost s0 = self@;
        let mut k: usize = 0;
        while k < x + 1
            invariant
                s0 == old(self)@,
                s0.wf(),
                x < 16,
                s0.i + x <= 4095,
                k <= x + 1,
                self@.ram.len() == 4096,
                forall|a: int| 0 <= a < 4096 && s0.i <= a < s0.i + k
                    ==> #[trigger] self@.ram[a] == s0.v[a - s0.i],
                forall|a: int| 0 <= a < 4096 && !(s0.i <= a < s0.i + k)
                    ==> #[trigger] self@.ram[a] == s0.ram[a],
                self@ == (MachineState { ram: self@.ram, ..s0 }),
            decreases x + 1 - k,
        {
            self.ram[self.i + k] = self.v[k];
            k = k + 1;
        }
        proof {
            assert(self@.ram =~= spec_op_fx55(s0, x).ram);
            assert(self@ =~= spec_op_fx55(s0, x));
        }
        Ok(ProgramCounter::Next)
    }

    // LD Vx, [I]: read memory starting at I into V0 through Vx.
    fn op_fx65(&mut self, x: usize) -> (r: Result<ProgramCounter, FaultKind>)
        requires
            old(self)@.wf(),
            x < 16,
        ensures
            old(self)@.i + x > 4095 ==> final(self)@ == old(self)@ && r == Err::<
                ProgramCounter,
                FaultKind,
            >(FaultKind::MemoryOutOfBounds),
            old(self)@.i + x <= 4095 ==> final(self)@ == spec_op_fx65(old(self)@, x) && r == Ok::<
                ProgramCounter,
                FaultKind,
            >(ProgramCounter::Next),
    {
        if self.i + x > 4095 {
            return Err(FaultKind::MemoryOutOfBounds);
        }
        let ghost s0 = self@;
        let mut k: usize = 0;
        while k < x + 1
            invariant
                s0 == old(self)@,
                s0.wf(),
                x < 16,
                s0.i + x <= 4095,
                k <= x + 1,
                self@.v.len() == 16,
                forall|j: int| 0 <= j < 16 && j < k
                    ==> #[trigger] self@.v[j] == s0.ram[s0.i + j],
                forall|j: int| 0 <= j < 16 && j >= k ==> #[trigger] self@.v[j] == s0.v[j],
                self@ == (MachineState { v: self@.v, ..s0 }),
            decreases x + 1 - k,
        {
            self.v[k] = self.ram[self.i + k];
            k = k + 1;
        }
        proof {
            assert(self@.v =~= spec_op_fx65(s0, x).v);
            assert(self@ =~= spec_op_fx65(s0, x));
        }
        Ok(ProgramCounter::Next)
    }

    // DRW Vx, Vy, n: blit an n-byte sprite from memory at I to (Vx, Vy),
    // XOR-ing each byte into its row with circular horizontal wraparound,
    // and report any collision in the flag register.
    fn op_dxyn(&mut self, x: usize, y: usize, n: usize) -> (r: Result<
        ProgramCounter,
        FaultKind,
    >)
        requires
            old(self)@.wf(),
            x < 16,
            y < 16,
            n <= 15,
        ensures
            old(self)@.i + n > 4096 ==> final(self)@ == old(self)@ && r == Err::<
                ProgramCounter,
                FaultKind,
            >(FaultKind::MemoryOutOfBounds),
            old(self)@.i + n <= 4096 ==> final(self)@ == spec_op_dxyn(old(self)@, x, y, n)
                && r == Ok::<ProgramCounter, FaultKind>(ProgramCounter::Next),
    {
        if self.i + n > 4096 {
            return Err(FaultKind::MemoryOutOfBounds);
        }
        let ghost s0 = self@;
        let ghost sprite = self@.ram.subrange(self@.i as int, self@.i + n);
        let col: u64 = (self.v[x] % 64) as u64;
        let row0: usize = self.v[y] as usize;
        let ghost full = spec_draw(s0.vram, sprite, col, row0 as int);
        self.v[0x0f] = 0;
        let mut b: usize = 0;
        proof {
            assert(sprite.skip(0) =~= sprite);
        }
        while b < n
            invariant
                s0 == old(self)@,
                s0.wf(),
                x < 16,
                y < 16,
                n <= 15,
                s0.i + n <= 4096,
                b <= n,
                col == (s0.v[x as int] % 64) as u64,
                col < 64,
                row0 == s0.v[y as int] as usize,
                sprite == s0.ram.subrange(s0.i as int, s0.i + n),
                full == spec_draw(s0.vram, sprite, col, row0 as int),
                self@.vram.len() == 32,
                self@.v.len() == 16,
                self@.v[15] == 0 || self@.v[15] == 1,
                self@.v == s0.v.update(15, self@.v[15]),
                self@ == (MachineState { vram: self@.vram, v: self@.v, ..s0 }),
                full.0 == spec_draw(self@.vram, sprite.skip(b as int), col, row0 + b).0,
                full.1 == (self@.v[15] == 1 || spec_draw(
                    self@.vram,
                    sprite.skip(b as int),
                    col,
                    row0 + b,
                ).1),
            decreases n - b,
        {
            let ghost pre_vram = self@.vram;
            let ghost pre_flag = self@.v[15];
            let byte = self.ram[self.i + b];
            let row = (row0 + b) % 32;
            let m = sprite_row_mask(byte, col);
            if self.vram[row] & m != 0 {
                self.v[0xf] = 1;
            }
            let w = self.vram[row];
            self.vram[row] = w ^ m;
            b = b + 1;
            proof {
                let sk = sprite.skip(b - 1);
                assert(sk.len() == n - (b - 1));
                assert(sk[0] == sprite[b - 1]);
                assert(sprite[b - 1] == s0.ram[s0.i + (b - 1)]);
                assert(sk.skip(1) =~= sprite.skip(b as int));
                assert((row0 + (b - 1)) % (32 as int) == row as int);
                assert(self@.v =~= s0.v.update(15, self@.v[15]));
            }
        }
        proof {
            assert(sprite.skip(n as int) =~= Seq::<u8>::empty());
            assert(spec_draw(self@.vram, sprite.skip(n as int), col, row0 + n).0 == self@.vram);
            assert(full.0 == self@.vram);
            assert(full.1 == (self@.v[15] == 1));
        }
        self.vram_changed = true;
        proof {
            assert(self@.v =~= spec_op_dxyn(s0, x, y, n).v);
            assert(self@ =~= spec_op_dxyn(s0, x, y, n));
        }
        Ok(ProgramCounter::Next)
    }

    /// Decode one opcode, dispatch it, and apply the resulting
    /// program-counter action.  A fatal fault leaves the state untouched and
    /// reports the offending opcode and program counter; an unrecognized
    /// opcode is a soft error that advances like any other instruction.
    #[verifier::rlimit(100)]
    pub fn run_opcode(&mut self, opcode: u16) -> (r: Result<(), Fault>)
        requires
            old(self)@.wf(),
            old(self)@.pc + 4 <= 0xFFFF,
        ensures
            final(self)@.wf(),
            ((r is Ok) <==> (spec_step(old(self)@, opcode, 0) is Ok)),
            (r is Ok ==> exists|rb: u8|
                (spec_step(old(self)@, opcode, rb) is Ok && final(self)@ == spec_step(
                    old(self)@,
                    opcode,
                    rb,
                )->Ok_0)),
            (!is_rand_op(opcode) && r is Ok ==> final(self)@ == spec_step(
                old(self)@,
                opcode,
                0,
            )->Ok_0),
            (r is Err ==> final(self)@ == old(self)@ && r->Err_0 == (Fault {
                kind: spec_step(old(self)@, opcode, 0)->Err_0,
                pc: old(self)@.pc,
                opcode: opcode,
            })),
    {
        proof {
            lemma_decode_bounds(opcode);
        }
        let ghost s0 = self@;
        let ghost mut rbg: u8 = 0;
        let nibbles = (
            (opcode & 0xF000) >> 12,
            ((opcode & 0x0F00) >> 8) as usize,
            ((opcode & 0x00F0) >> 4) as usize,
            (opcode & 0x000F) as usize,
        );
        let nnn = (opcode & 0x0FFF) as usize;
        let kk = (opcode & 0x00FF) as u8;
        let x = nibbles.1;
        let y = nibbles.2;
        let n = nibbles.3;
        let pc_change = match nibbles {
            (0x00, 0x00, 0x0e, 0x00) => {
                let pc = self.op_00e0();
                proof {
                    assert(spec_dispatch(s0, opcode, rbg) == Ok::<(MachineState, ProgramCounter), FaultKind>((self@, pc)));
                }
                pc
            },
            (0x00, 0x00, 0x0e, 0x0e) => match self.op_00ee() {
                Ok(pc) => {
                    proof {
                        assert(spec_dispatch(s0, opcode, rbg) == Ok::<(MachineState, ProgramCounter), FaultKind>((self@, pc)));
                    }
                    pc
                },
                Err(k) => {
                    return Err(Fault { kind: k, pc: self.pc, opcode: opcode });
                },
            },
            (0x01, _, _, _) => {
                let pc = self.op_1nnn(nnn);
                proof {
                    assert(spec_dispatch(s0, opcode, rbg) == Ok::<(MachineState, ProgramCounter), FaultKind>((self@, pc)));
                }
                pc
            },
            (0x02, _, _, _) => match self.op_2nnn(nnn) {
                Ok(pc) => {
                    proof {
                        assert(spec_dispatch(s0, opcode, rbg) == Ok::<(MachineState, ProgramCounter), FaultKind>((self@, pc)));
                    }
                    pc
                },
                Err(k) => {
                    return Err(Fault { kind: k, pc: self.pc, opcode: opcode });
                },
            },
            (0x03, _, _, _) => {
                let pc = self.op_3xkk(x, kk);
                proof {
                    assert(spec_dispatch(s0, opcode, rbg) == Ok::<(MachineState, ProgramCounter), FaultKind>((self@, pc)));
                }
                pc
            },
            (0x04, _, _, _) => {
                let pc = self.op_4xkk(x, kk);
                proof {
                    assert(spec_dispatch(s0, opcode, rbg) == Ok::<(MachineState, ProgramCounter), FaultKind>((self@, pc)));
                }
                pc
            },
            (0x05, _, _, 0x00) => {
                let pc = self.op_5xy0(x, y);
                proof {
                    assert(spec_dispatch(s0, opcode, rbg) == Ok::<(MachineState, ProgramCounter), FaultKind>((self@, pc)));
                }
                pc
            },
            (0x06, _, _, _) => {
                let pc = self.op_6xkk(x, kk);
                proof {
                    assert(spec_dispatch(s0, opcode, rbg) == Ok::<(MachineState, ProgramCounter), FaultKind>((self@, pc)));
                }
                pc
            },
            (0x07, _, _, _) => {
                let pc = self.op_7xkk(x, kk);
                proof {
                    assert(spec_dispatch(s0, opcode, rbg) == Ok::<(MachineState, ProgramCounter), FaultKind>((self@, pc)));
                }
                pc
            },
            (0x08, _, _, 0x00) => {
                let pc = self.op_8xy0(x, y);
                proof {
                    assert(spec_dispatch(s0, opcode, rbg) == Ok::<(MachineState, ProgramCounter), FaultKind>((self@, pc)));
                }
                pc
            },
            (0x08, _, _, 0x01) => {
                let pc = self.op_8xy1(x, y);
                proof {
                    assert(spec_dispatch(s0, opcode, rbg) == Ok::<(MachineState, ProgramCounter), FaultKind>((self@, pc)));
                }
                pc
            },
            (0x08, _, _, 0x02) => {
                let pc = self.op_8xy2(x, y);
                proof {
                    assert(spec_dispatch(s0, opcode, rbg) == Ok::<(MachineState, ProgramCounter), FaultKind>((self@, pc)));
                }
                pc
            },
            (0x08, _, _, 0x03) => {
                let pc = self.op_8xy3(x, y);
                proof {
                    assert(spec_dispatch(s0, opcode, rbg) == Ok::<(MachineState, ProgramCounter), FaultKind>((self@, pc)));
                }
                pc
            },
            (0x08, _, _, 0x04) => {
                let pc = self.op_8xy4(x, y);
                proof {
                    assert(spec_dispatch(s0, opcode, rbg) == Ok::<(MachineState, ProgramCounter), FaultKind>((self@, pc)));
                }
                pc
            },
            (0x08, _, _, 0x05) => {
                let pc = self.op_8xy5(x, y);
                proof {
                    assert(spec_dispatch(s0, opcode, rbg) == Ok::<(MachineState, ProgramCounter), FaultKind>((self@, pc)));
                }
                pc
            },
            (0x08, _, _, 0x06) => {
                let pc = self.op_8x06(x);
                proof {
                    assert(spec_dispatch(s0, opcode, rbg) == Ok::<(MachineState, ProgramCounter), FaultKind>((self@, pc)));
                }
                pc
            },
            (0x08, _, _, 0x07) => {
                let pc = self.op_8xy7(x, y);
                proof {
                    assert(spec_dispatch(s0, opcode, rbg) == Ok::<(MachineState, ProgramCounter), FaultKind>((self@, pc)));
                }
                pc
            },
            (0x08, _, _, 0x0e) => {
                let pc = self.op_8x0e(x);
                proof {
                    assert(spec_dispatch(s0, opcode, rbg) == Ok::<(MachineState, ProgramCounter), FaultKind>((self@, pc)));
                }
                pc
            },
            (0x09, _, _, 0x00) => {
                let pc = self.op_9xy0(x, y);
                proof {
                    assert(spec_dispatch(s0, opcode, rbg) == Ok::<(MachineState, ProgramCounter), FaultKind>((self@, pc)));
                }
                pc
            },
            (0x0a, _, _, _) => {
                let pc = self.op_annn(nnn);
                proof {
                    assert(spec_dispatch(s0, opcode, rbg) == Ok::<(MachineState, ProgramCounter), FaultKind>((self@, pc)));
                }
                pc
            },
            (0x0b, _, _, _) => {
                let pc = self.op_bnnn(nnn);
                proof {
                    assert(spec_dispatch(s0, opcode, rbg) == Ok::<(MachineState, ProgramCounter), FaultKind>((self@, pc)));
                }
                pc
            },
            (0x0c, _, _, _) => {
                let byte = random_byte();
                proof {
                    rbg = byte;
                }
                let pc = self.op_cxkk(x, kk, byte);
                proof {
                    assert(spec_dispatch(s0, opcode, rbg) == Ok::<(MachineState, ProgramCounter), FaultKind>((self@, pc)));
                    assert(spec_dispatch(s0, opcode, 0) is Ok);
                }
                pc
            },
            (0x0d, _, _, _) => match self.op_dxyn(x, y, n) {
                Ok(pc) => {
                    proof {
                        assert(spec_dispatch(s0, opcode, rbg) == Ok::<(MachineState, ProgramCounter), FaultKind>((self@, pc)));
                    }
                    pc
                },
                Err(k) => {
                    return Err(Fault { kind: k, pc: self.pc, opcode: opcode });
                },
            },
            (0x0e, _, 0x09, 0x0e) => {
                let pc = self.op_ex9e(x);
                proof {
                    assert(spec_dispatch(s0, opcode, rbg) == Ok::<(MachineState, ProgramCounter), FaultKind>((self@, pc)));
                }
                pc
            },
            (0x0e, _, 0x0a, 0x01) => {
                let pc = self.op_exa1(x);
                proof {
                    assert(spec_dispatch(s0, opcode, rbg) == Ok::<(MachineState, ProgramCounter), FaultKind>((self@, pc)));
                }
                pc
            },
            (0x0f, _, 0x00, 0x07) => {
                let pc = self.op_fx07(x);
                proof {
                    assert(spec_dispatch(s0, opcode, rbg) == Ok::<(MachineState, ProgramCounter), FaultKind>((self@, pc)));
                }
                pc
            },
            (0x0f, _, 0x00, 0x0a) => {
                let pc = self.op_fx0a(x);
                proof {
                    assert(spec_dispatch(s0, opcode, rbg) == Ok::<(MachineState, ProgramCounter), FaultKind>((self@, pc)));
                }
                pc
            },
            (0x0f, _, 0x01, 0x05) => {
                let pc = self.op_fx15(x);
                proof {
                    assert(spec_dispatch(s0, opcode, rbg) == Ok::<(MachineState, ProgramCounter), FaultKind>((self@, pc)));
                }
                pc
            },
            (0x0f, _, 0x01, 0x08) => {
                let pc = self.op_fx18(x);
                proof {
                    assert(spec_dispatch(s0, opcode, rbg) == Ok::<(MachineState, ProgramCounter), FaultKind>((self@, pc)));
                }
                pc
            },
            (0x0f, _, 0x01, 0x0e) => {
                let pc = self.op_fx1e(x);
                proof {
                    assert(spec_dispatch(s0, opcode, rbg) == Ok::<(MachineState, ProgramCounter), FaultKind>((self@, pc)));
                }
                pc
            },
            (0x0f, _, 0x02, 0x09) => {
                let pc = self.op_fx29(x);
                proof {
                    assert(spec_dispatch(s0, opcode, rbg) == Ok::<(MachineState, ProgramCounter), FaultKind>((self@, pc)));
                }
                pc
            },
            (0x0f, _, 0x03, 0x03) => match self.op_fx33(x) {
                Ok(pc) => {
                    proof {
                        assert(spec_dispatch(s0, opcode, rbg) == Ok::<(MachineState, ProgramCounter), FaultKind>((self@, pc)));
                    }
                    pc
                },
                Err(k) => {
                    return Err(Fault { kind: k, pc: self.pc, opcode: opcode });
                },
            },
            (0x0f, _, 0x05, 0x05) => match self.op_fx55(x) {
                Ok(pc) => {
                    proof {
                        assert(spec_dispatch(s0, opcode, rbg) == Ok::<(MachineState, ProgramCounter), FaultKind>((self@, pc)));
                    }
                    pc
                },
                Err(k) => {
                    return Err(Fault { kind: k, pc: self.pc, opcode: opcode });
                },
            },
            (0x0f, _, 0x06, 0x05) => match self.op_fx65(x) {
                Ok(pc) => {
                    proof {
                        assert(spec_dispatch(s0, opcode, rbg) == Ok::<(MachineState, ProgramCounter), FaultKind>((self@, pc)));
                    }
                    pc
                },
                Err(k) => {
                    return Err(Fault { kind: k, pc: self.pc, opcode: opcode });
                },
            },
            _ => {
                proof {
                    assert(spec_dispatch(s0, opcode, rbg) == Ok::<(MachineState, ProgramCounter), FaultKind>((self@, ProgramCounter::Unknown(opcode))));
                }
                ProgramCounter::Unknown(opcode)
            },
        };
        match pc_change {
            ProgramCounter::Unknown(_) => {
                self.pc = self.pc + 2;
            },
            ProgramCounter::Next => {
                self.pc = self.pc + 2;
            },
            ProgramCounter::Skip => {
                self.pc = self.pc + 4;
            },
            ProgramCounter::Jump(t) => {
                self.pc = t;
            },
        }
        proof {
            assert(self@ == spec_step(s0, opcode, rbg)->Ok_0);
            crate::machine::lemma_step_wf(s0, opcode, rbg);
            if !is_rand_op(opcode) {
                crate::machine::lemma_step_rand_irrelevant(s0, opcode, rbg);
            }
        }
        Ok(())
    }

    /// One tick: record the keypad snapshot, clear the changed flag,
    /// decrement each nonzero timer by exactly one, then either run the
    /// wait-for-key sub-machine (no opcode is fetched) or fetch and run one
    /// opcode; finally hand back the output snapshot.  A fatal fault is
    /// returned to the caller so the host can stop the run; the machine
    /// keeps the state it had before the faulting instruction.
    pub fn tick(&mut self, keypad: u16) -> (r: Result<OutputState, Fault>)
        requires
            old(self)@.wf(),
        ensures
            final(self)@.wf(),
            ((r is Ok) <==> (spec_tick(old(self)@, keypad, 0) is Ok)),
            (r is Ok ==> exists|rb: u8|
                (spec_tick(old(self)@, keypad, rb) is Ok && final(self)@ == spec_tick(
                    old(self)@,
                    keypad,
                    rb,
                )->Ok_0)),
            (!tick_uses_rand(old(self)@, keypad) && r is Ok ==> final(self)@ == spec_tick(
                old(self)@,
                keypad,
                0,
            )->Ok_0),
            (r is Ok ==> r->Ok_0.vram@ == final(self)@.vram
                && r->Ok_0.vram_changed == final(self)@.vram_changed
                && r->Ok_0.beep == (final(self)@.sound_timer > 0)),
            (r is Err ==> final(self)@ == spec_tick_pre(old(self)@, keypad) && r->Err_0.kind
                == spec_tick(old(self)@, keypad, 0)->Err_0 && r->Err_0.pc == old(self)@.pc),
            (r is Err ==> r->Err_0.opcode == (if old(self)@.pc + 1 >= 4096 {
                0u16
            } else {
                spec_fetch(spec_tick_pre(old(self)@, keypad))
            })),
    {
        let ghost s0 = self@;
        self.keypad = keypad;
        self.vram_changed = false;
        if self.delay_timer > 0 {
            self.delay_timer = self.delay_timer - 1;
        }
        if self.sound_timer > 0 {
            self.sound_timer = self.sound_timer - 1;
        }
        proof {
            assert(self@ =~= spec_tick_pre(s0, keypad));
        }
        let ghost s1 = self@;
        if self.keypad_wait {
            if keypad > 0 {
                self.keypad_wait = false;
                let key = find_lowest_key(keypad);
                let reg = self.keypad_wait_register;
                self.v[reg] = key;
                proof {
                    assert(self@.v =~= spec_capture_key(s1, keypad).v);
                    assert(self@ =~= spec_capture_key(s1, keypad));
                }
            }
        } else {
            if self.pc + 1 >= 4096 {
                return Err(Fault { kind: FaultKind::MemoryOutOfBounds, pc: self.pc, opcode: 0 });
            }
            let opcode = ((self.ram[self.pc] as u16) << 8) | (self.ram[self.pc + 1] as u16);
            proof {
                assert(opcode == spec_fetch(s1));
            }
            match self.run_opcode(opcode) {
                Ok(_) => {
                    proof {
                        let rbw = choose|rb: u8|
                            (spec_step(s1, opcode, rb) is Ok && self@ == spec_step(
                                s1,
                                opcode,
                                rb,
                            )->Ok_0);
                        assert(spec_tick(s0, keypad, rbw) is Ok && self@ == spec_tick(
                            s0,
                            keypad,
                            rbw,
                        )->Ok_0);
                    }
                },
                Err(f) => {
                    return Err(f);
                },
            }
        }
        let out = OutputState {
            vram: copy_rows(&self.vram),
            vram_changed: self.vram_changed,
            beep: self.sound_timer > 0,
        };
        Ok(out)
    }
}

/// Relies on rand::random: one byte from the thread-local random generator.
/// Nothing is promised of the value; callers state what holds of every
/// outcome.
#[verifier::external_body]
fn random_byte() -> u8 {
    rand::random::<u8>()
}

/// The fixed starting state used by the arithmetic checks: program counter
/// at 0xF00, the register file holding the pattern 0,0,1,1,...,7,7 with
/// the first two registers replaced by the two operands and the flag
/// register cleared.
pub open spec fn math_start(v1: u8, v2: u8) -> MachineState {
    MachineState {
        pc: 0xF00,
        v: seq![0u8, 0u8, 1u8, 1u8, 2u8, 2u8, 3u8, 3u8, 4u8, 4u8, 5u8, 5u8, 6u8, 6u8, 7u8, 7u8]
            .update(0, v1).update(1, v2).update(15, 0u8),
        ..initial_state()
    }
}

/// Whether running the arithmetic opcode `0x8010 + op` from `math_start`
/// leaves `result` in the first register, `vf` in the flag register, and the
/// program counter advanced by one instruction.
pub open spec fn spec_check_math(v1: u8, v2: u8, op: u16, result: u8, vf: u8) -> bool {
    let st = spec_step(math_start(v1, v2), (0x8010 + op) as u16, 0);
    (st is Ok) && st->Ok_0.v[0] == result && st->Ok_0.v[15] == vf && st->Ok_0.pc == 0xF02
}

/// Run one register-arithmetic opcode on two operands and report whether
/// the result, the flag register, and the program counter come out as given.
pub fn check_math(v1: u8, v2: u8, op: u16, result: u8, vf: u8) -> (r: bool)
    requires
        op <= 0xF,
    ensures
        r == spec_check_math(v1, v2, op, result, vf),
{
    let mut processor = Processor::new();
    processor.pc = 0xF00;
    processor.v = vec![0u8, 0, 1, 1, 2, 2, 3, 3, 4, 4, 5, 5, 6, 6, 7, 7];
    processor.v[0] = v1;
    processor.v[1] = v2;
    processor.v[15] = 0;
    proof {
        assert(processor@.v =~= math_start(v1, v2).v);
        assert(processor@ =~= math_start(v1, v2));
        assert(crate::machine::nib_a((0x8010 + op) as u16) == 0x8);
    }
    let res = processor.run_opcode(0x8010 + op);
    match res {
        Ok(_) => {
            processor.v[0] == result && processor.v[15] == vf && processor.pc == 0xF02
        },
        Err(_) => false,
    }
}

} // verus!
