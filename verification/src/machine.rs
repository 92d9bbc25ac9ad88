//! The mathematical model of the machine: its state, the decoded fields of
//! an opcode, and the transition that one opcode, or one whole tick,
//! performs on the state.

use vstd::prelude::*;
use crate::bits::{key_pressed, lowest_set_bit};
use crate::font::font_seq;
use crate::framebuffer::spec_draw;

verus! {

/// The three-way program-counter outcome of an opcode handler, plus the
/// soft case of an unrecognized opcode, which advances like `Next`.
#[derive(Debug, Clone, Copy)]
pub enum ProgramCounter {
    Unknown(u16),
    Next,
    Skip,
    Jump(usize),
}

/// The fatal fault kinds: the soft case (an unrecognized opcode) is absorbed
/// internally, while these halt the run and are surfaced to the caller.
#[derive(Debug, Clone, Copy, PartialEq, Eq)]
pub enum FaultKind {
    StackOverflow,
    StackUnderflow,
    MemoryOutOfBounds,
}

/// A fatal fault, carrying the offending opcode and the program counter it
/// was fetched from.  A fault raised at fetch itself carries opcode `0`.
#[derive(Debug, Clone, Copy, PartialEq, Eq)]
pub struct Fault {
    pub kind: FaultKind,
    pub pc: usize,
    pub opcode: u16,
}

impl ProgramCounter {
    /// `Skip` when the condition holds, `Next` otherwise.
    pub fn skip_if(condition: bool) -> (r: ProgramCounter)
        ensures
            r == spec_skip_if(condition),
    {
        if condition {
            ProgramCounter::Skip
        } else {
            ProgramCounter::Next
        }
    }
}

/// `Skip` when the condition holds, `Next` otherwise.
pub open spec fn spec_skip_if(condition: bool) -> ProgramCounter {
    if condition {
        ProgramCounter::Skip
    } else {
        ProgramCounter::Next
    }
}

/// The machine state as mathematical values: one 64-bit word per framebuffer
/// row, the 4096-byte address space, the 16-entry call stack, the sixteen
/// 8-bit registers, the index register, program counter, stack pointer, the
/// two countdown timers, and the keypad snapshot with the wait sub-state.
#[verifier::ext_equal]
pub ghost struct MachineState {
    pub vram: Seq<u64>,
    pub vram_changed: bool,
    pub ram: Seq<u8>,
    pub stack: Seq<usize>,
    pub v: Seq<u8>,
    pub i: usize,
    pub pc: usize,
    pub sp: usize,
    pub delay_timer: u8,
    pub sound_timer: u8,
    pub keypad: u16,
    pub keypad_wait: bool,
    pub keypad_wait_register: usize,
}

impl MachineState {
    /// Well-formedness: the fixed sizes of the machine, a stack pointer within
    /// its 16 slots, and 16-bit bounds on the index register, the program
    /// counter and every stored return address.
    pub open spec fn wf(self) -> bool {
        &&& self.vram.len() == 32
        &&& self.ram.len() == 4096
        &&& self.stack.len() == 16
        &&& self.v.len() == 16
        &&& self.sp <= 16
        &&& self.pc <= 0xFFFF
        &&& self.i <= 0xFFFF
        &&& (forall|k: int| 0 <= k < 16 ==> #[trigger] self.stack[k] <= 0xFFFF)
        &&& self.keypad_wait_register < 16
    }
}

/// The state of a freshly constructed machine: everything zeroed, the font
/// table preloaded at the bottom of memory, and the program counter at the
/// program start address.
pub open spec fn initial_state() -> MachineState {
    MachineState {
        vram: Seq::new(32, |r: int| 0u64),
        vram_changed: false,
        ram: Seq::new(4096, |a: int| if a < 80 { font_seq()[a] } else { 0u8 }),
        stack: Seq::new(16, |k: int| 0usize),
        v: Seq::new(16, |k: int| 0u8),
        i: 0,
        pc: 0x200,
        sp: 0,
        delay_timer: 0,
        sound_timer: 0,
        keypad: 0,
        keypad_wait: false,
        keypad_wait_register: 0,
    }
}

/// Memory after a program is copied in at the program start address; bytes
/// that would land past the end of the address space are dropped.
pub open spec fn loaded_ram(ram: Seq<u8>, data: Seq<u8>) -> Seq<u8> {
    Seq::new(4096, |a: int|
        if 0x200 <= a && a - 0x200 < data.len() {
            data[a - 0x200]
        } else {
            ram[a]
        })
}

/// The state after loading a program: only memory changes.
pub open spec fn spec_load(s: MachineState, data: Seq<u8>) -> MachineState {
    MachineState { ram: loaded_ram(s.ram, data), ..s }
}

/// The first nibble of an opcode.
pub open spec fn nib_a(op: u16) -> u16 {
    ((op / 0x1000) as u16)
}

/// The second nibble: a register index.
pub open spec fn nib_x(op: u16) -> usize {
    (((op / 0x100) % 0x10) as usize)
}

/// The third nibble: a register index.
pub open spec fn nib_y(op: u16) -> usize {
    (((op / 0x10) % 0x10) as usize)
}

/// The fourth nibble: a 4-bit count.
pub open spec fn nib_n(op: u16) -> usize {
    ((op % 0x10) as usize)
}

/// The low 12 bits of an opcode: an address.
pub open spec fn op_nnn(op: u16) -> usize {
    ((op % 0x1000) as usize)
}

/// The low 8 bits of an opcode: an immediate.
pub open spec fn op_kk(op: u16) -> u8 {
    ((op % 0x100) as u8)
}

/// The masked-shift form of decoding, as the execution engine computes it,
/// equals the arithmetic form of the spec functions above.
pub proof fn lemma_decode_bounds(op: u16)
    by (bit_vector)
    ensures
        (op & 0xF000) >> 12u16 == op / 0x1000,
        (op & 0x0F00) >> 8u16 == (op / 0x100) % 0x10,
        (op & 0x00F0) >> 4u16 == (op / 0x10) % 0x10,
        (op & 0x000F) == op % 0x10,
        (op & 0x0FFF) == op % 0x1000,
        (op & 0x00FF) == op % 0x100,
{
}

/// 8-bit subtraction that wraps modulo 256.
pub open spec fn wrap_sub_u8(a: u8, b: u8) -> u8 {
    if a >= b {
        (a - b) as u8
    } else {
        (a + 256 - b) as u8
    }
}

/// State with register `x` set to `val`.
pub open spec fn upd_v(s: MachineState, x: usize, val: u8) -> MachineState {
    MachineState { v: s.v.update(x as int, val), ..s }
}

/// State with register `x` set to `val` and then the flag register set to
/// `flag`; when `x` is 15 the flag write wins.
pub open spec fn upd_vf(s: MachineState, x: usize, val: u8, flag: u8) -> MachineState {
    MachineState { v: s.v.update(x as int, val).update(15, flag), ..s }
}

/// clear-screen: every framebuffer row becomes zero.
pub open spec fn spec_op_00e0(s: MachineState) -> MachineState {
    MachineState { vram: Seq::new(32, |r: int| 0u64), vram_changed: true, ..s }
}

/// return: pop the stack; the jump target is the popped address.
pub open spec fn spec_op_00ee(s: MachineState) -> (MachineState, ProgramCounter)
    recommends
        s.sp > 0,
{
    (MachineState { sp: (s.sp - 1) as usize, ..s }, ProgramCounter::Jump(s.stack[s.sp - 1]))
}

/// call: push the address of the following instruction; jump to `nnn`.
pub open spec fn spec_op_2nnn(s: MachineState, nnn: usize) -> (MachineState, ProgramCounter)
    recommends
        s.sp < 16,
        s.pc + 2 <= 0xFFFF,
{
    (MachineState {
        stack: s.stack.update(s.sp as int, (s.pc + 2) as usize),
        sp: (s.sp + 1) as usize,
        ..s
    }, ProgramCounter::Jump(nnn))
}

/// load-I: the index register becomes `nnn`.
pub open spec fn spec_set_i(s: MachineState, val: usize) -> MachineState {
    MachineState { i: val, ..s }
}

/// wait-key: enter the waiting state for register `x`.
pub open spec fn spec_op_fx0a(s: MachineState, x: usize) -> MachineState {
    MachineState { keypad_wait: true, keypad_wait_register: x, ..s }
}

/// set-delay: the delay timer becomes `Vx`.
pub open spec fn spec_set_delay(s: MachineState, val: u8) -> MachineState {
    MachineState { delay_timer: val, ..s }
}

/// set-sound: the sound timer becomes `Vx`.
pub open spec fn spec_set_sound(s: MachineState, val: u8) -> MachineState {
    MachineState { sound_timer: val, ..s }
}

/// bcd: the hundreds, tens and ones digits of `Vx` land at `I`, `I+1`, `I+2`.
pub open spec fn spec_op_fx33(s: MachineState, x: usize) -> MachineState
    recommends
        x < 16,
        s.i + 2 <= 4095,
{
    let vx = s.v[x as int];
    MachineState {
        ram: s.ram.update(s.i as int, (vx / 100) as u8).update(
            s.i + 1,
            ((vx % 100) / 10) as u8,
        ).update(s.i + 2, (vx % 10) as u8),
        ..s
    }
}

/// store-regs: registers `V0..Vx` inclusive land in memory at `I`.
pub open spec fn spec_op_fx55(s: MachineState, x: usize) -> MachineState
    recommends
        x < 16,
        s.i + x <= 4095,
{
    MachineState {
        ram: Seq::new(4096, |a: int|
            if s.i <= a <= s.i + x {
                s.v[a - s.i]
            } else {
                s.ram[a]
            }),
        ..s
    }
}

/// load-regs: memory at `I` lands in registers `V0..Vx` inclusive.
pub open spec fn spec_op_fx65(s: MachineState, x: usize) -> MachineState
    recommends
        x < 16,
        s.i + x <= 4095,
{
    MachineState {
        v: Seq::new(16, |r: int| if r <= x { s.ram[s.i + r] } else { s.v[r] }),
        ..s
    }
}

/// draw: blit `n` sprite bytes from memory at `I` to `(Vx, Vy)`; the flag
/// register reports the collision.
pub open spec fn spec_op_dxyn(s: MachineState, x: usize, y: usize, n: usize) -> MachineState
    recommends
        x < 16,
        y < 16,
        s.i + n <= 4096,
{
    let dr = spec_draw(
        s.vram,
        s.ram.subrange(s.i as int, s.i + n),
        (s.v[x as int] % 64) as u64,
        s.v[y as int] as int,
    );
    MachineState {
        vram: dr.0,
        vram_changed: true,
        v: s.v.update(15, if dr.1 { 1u8 } else { 0u8 }),
        ..s
    }
}

/// The effect of dispatching one opcode on the machine state, before the
/// program-counter action is applied.  `rb` is the byte the random source
/// produced, consulted only by the random opcode.  A fatal fault leaves the
/// state unchanged and reports its kind.
pub open spec fn spec_dispatch(s: MachineState, op: u16, rb: u8) -> Result<
    (MachineState, ProgramCounter),
    FaultKind,
>
    recommends
        s.wf(),
{
    let a = nib_a(op);
    let x = nib_x(op);
    let y = nib_y(op);
    let n = nib_n(op);
    let nnn = op_nnn(op);
    let kk = op_kk(op);
    let vx = s.v[x as int];
    let vy = s.v[y as int];
    if a == 0x0 && x == 0x0 && y == 0xe && n == 0x0 {
        Ok((spec_op_00e0(s), ProgramCounter::Next))
    } else if a == 0x0 && x == 0x0 && y == 0xe && n == 0xe {
        if s.sp == 0 {
            Err(FaultKind::StackUnderflow)
        } else {
            Ok(spec_op_00ee(s))
        }
    } else if a == 0x1 {
        Ok((s, ProgramCounter::Jump(nnn)))
    } else if a == 0x2 {
        if s.sp == 16 {
            Err(FaultKind::StackOverflow)
        } else {
            Ok(spec_op_2nnn(s, nnn))
        }
    } else if a == 0x3 {
        Ok((s, spec_skip_if(vx == kk)))
    } else if a == 0x4 {
        Ok((s, spec_skip_if(vx != kk)))
    } else if a == 0x5 && n == 0x0 {
        Ok((s, spec_skip_if(vx == vy)))
    } else if a == 0x6 {
        Ok((upd_v(s, x, kk), ProgramCounter::Next))
    } else if a == 0x7 {
        // add-imm wraps at 8 bits and leaves the flag register alone
        Ok((upd_v(s, x, ((vx + kk) % 256) as u8), ProgramCounter::Next))
    } else if a == 0x8 && n == 0x0 {
        Ok((upd_v(s, x, vy), ProgramCounter::Next))
    } else if a == 0x8 && n == 0x1 {
        Ok((upd_v(s, x, vx | vy), ProgramCounter::Next))
    } else if a == 0x8 && n == 0x2 {
        Ok((upd_v(s, x, vx & vy), ProgramCounter::Next))
    } else if a == 0x8 && n == 0x3 {
        Ok((upd_v(s, x, vx ^ vy), ProgramCounter::Next))
    } else if a == 0x8 && n == 0x4 {
        // add-reg: the flag is the carry out of the 8-bit sum
        Ok((upd_vf(s, x, ((vx + vy) % 256) as u8, if vx + vy > 255 { 1u8 } else { 0u8 }),
            ProgramCounter::Next))
    } else if a == 0x8 && n == 0x5 {
        // sub: the flag is set iff no borrow occurs
        Ok((upd_vf(s, x, wrap_sub_u8(vx, vy), if vx >= vy { 1u8 } else { 0u8 }),
            ProgramCounter::Next))
    } else if a == 0x8 && n == 0x6 {
        // shr: the flag is the bit shifted out, read before the shift
        Ok((upd_vf(s, x, vx >> 1u8, vx & 1), ProgramCounter::Next))
    } else if a == 0x8 && n == 0x7 {
        // subn: the flag is set iff no borrow occurs
        Ok((upd_vf(s, x, wrap_sub_u8(vy, vx), if vy >= vx { 1u8 } else { 0u8 }),
            ProgramCounter::Next))
    } else if a == 0x8 && n == 0xe {
        // shl: the flag is the bit shifted out, read before the shift
        Ok((upd_vf(s, x, vx << 1u8, vx >> 7u8), ProgramCounter::Next))
    } else if a == 0x9 && n == 0x0 {
        Ok((s, spec_skip_if(vx != vy)))
    } else if a == 0xa {
        Ok((spec_set_i(s, nnn), ProgramCounter::Next))
    } else if a == 0xb {
        Ok((s, ProgramCounter::Jump((s.v[0] + nnn) as usize)))
    } else if a == 0xc {
        Ok((upd_v(s, x, rb & kk), ProgramCounter::Next))
    } else if a == 0xd {
        if s.i + n > 4096 {
            Err(FaultKind::MemoryOutOfBounds)
        } else {
            Ok((spec_op_dxyn(s, x, y, n), ProgramCounter::Next))
        }
    } else if a == 0xe && y == 0x9 && n == 0xe {
        Ok((s, spec_skip_if(key_pressed(s.keypad, vx))))
    } else if a == 0xe && y == 0xa && n == 0x1 {
        Ok((s, spec_skip_if(!key_pressed(s.keypad, vx))))
    } else if a == 0xf && y == 0x0 && n == 0x7 {
        Ok((upd_v(s, x, s.delay_timer), ProgramCounter::Next))
    } else if a == 0xf && y == 0x0 && n == 0xa {
        Ok((spec_op_fx0a(s, x), ProgramCounter::Next))
    } else if a == 0xf && y == 0x1 && n == 0x5 {
        Ok((spec_set_delay(s, vx), ProgramCounter::Next))
    } else if a == 0xf && y == 0x1 && n == 0x8 {
        Ok((spec_set_sound(s, vx), ProgramCounter::Next))
    } else if a == 0xf && y == 0x1 && n == 0xe {
        // add-I: the 16-bit index register wraps; out-of-range accesses are
        // caught where the register is used
        Ok((spec_set_i(s, ((s.i + vx) % 0x10000) as usize), ProgramCounter::Next))
    } else if a == 0xf && y == 0x2 && n == 0x9 {
        Ok((spec_set_i(s, (vx * 5) as usize), ProgramCounter::Next))
    } else if a == 0xf && y == 0x3 && n == 0x3 {
        if s.i + 2 > 4095 {
            Err(FaultKind::MemoryOutOfBounds)
        } else {
            Ok((spec_op_fx33(s, x), ProgramCounter::Next))
        }
    } else if a == 0xf && y == 0x5 && n == 0x5 {
        if s.i + x > 4095 {
            Err(FaultKind::MemoryOutOfBounds)
        } else {
            Ok((spec_op_fx55(s, x), ProgramCounter::Next))
        }
    } else if a == 0xf && y == 0x6 && n == 0x5 {
        if s.i + x > 4095 {
            Err(FaultKind::MemoryOutOfBounds)
        } else {
            Ok((spec_op_fx65(s, x), ProgramCounter::Next))
        }
    } else {
        // unrecognized opcode: a soft error, treated as a no-op that advances
        Ok((s, ProgramCounter::Unknown(op)))
    }
}

/// Apply a program-counter action: advance by one instruction, skip one
/// instruction, or jump.
pub open spec fn spec_apply_pc(s: MachineState, a: ProgramCounter) -> MachineState
    recommends
        s.pc + 4 <= 0xFFFF,
{
    match a {
        ProgramCounter::Unknown(_) => MachineState { pc: (s.pc + 2) as usize, ..s },
        ProgramCounter::Next => MachineState { pc: (s.pc + 2) as usize, ..s },
        ProgramCounter::Skip => MachineState { pc: (s.pc + 4) as usize, ..s },
        ProgramCounter::Jump(t) => MachineState { pc: t, ..s },
    }
}

/// The whole effect of one opcode: dispatch, then the program-counter action.
pub open spec fn spec_step(s: MachineState, op: u16, rb: u8) -> Result<MachineState, FaultKind>
    recommends
        s.wf(),
        s.pc + 4 <= 0xFFFF,
{
    match spec_dispatch(s, op, rb) {
        Ok(sa) => Ok(spec_apply_pc(sa.0, sa.1)),
        Err(k) => Err(k),
    }
}

/// Whether an opcode consults the random source.
pub open spec fn is_rand_op(op: u16) -> bool {
    nib_a(op) == 0xc
}

/// One step preserves well-formedness.
#[verifier::rlimit(100)]
pub proof fn lemma_step_wf(s: MachineState, op: u16, rb: u8)
    requires
        s.wf(),
        s.pc + 4 <= 0xFFFF,
    ensures
        (spec_step(s, op, rb) is Ok ==> spec_step(s, op, rb)->Ok_0.wf()),
{
    lemma_decode_bounds(op);
    if nib_a(op) == 0xd && s.i + nib_n(op) <= 4096 {
        crate::framebuffer::lemma_draw_len(
            s.vram,
            s.ram.subrange(s.i as int, s.i + nib_n(op)),
            (s.v[nib_x(op) as int] % 64) as u64,
            s.v[nib_y(op) as int] as int,
        );
    }
}

/// The random byte only matters to the random opcode.
#[verifier::rlimit(100)]
pub proof fn lemma_step_rand_irrelevant(s: MachineState, op: u16, rb: u8)
    requires
        !is_rand_op(op),
    ensures
        spec_dispatch(s, op, rb) == spec_dispatch(s, op, 0),
        spec_step(s, op, rb) == spec_step(s, op, 0),
{
    lemma_decode_bounds(op);
}

/// The big-endian 16-bit opcode at the program counter.
pub open spec fn spec_fetch(s: MachineState) -> u16
    recommends
        s.pc + 1 < s.ram.len(),
{
    ((s.ram[s.pc as int] as u16) << 8u16) | (s.ram[s.pc + 1] as u16)
}

/// The unconditional start-of-tick effects: the keypad snapshot is recorded,
/// the changed flag is cleared, and each nonzero timer is decremented by
/// exactly one.  Timers decrement on every tick, whether or not the machine
/// is waiting for a key.
pub open spec fn spec_tick_pre(s: MachineState, keypad: u16) -> MachineState {
    MachineState {
        keypad: keypad,
        vram_changed: false,
        delay_timer: if s.delay_timer > 0 { (s.delay_timer - 1) as u8 } else { 0u8 },
        sound_timer: if s.sound_timer > 0 { (s.sound_timer - 1) as u8 } else { 0u8 },
        ..s
    }
}

/// The wait-for-key capture: the lowest pressed key index is written into
/// the waiting register and the machine resumes.
pub open spec fn spec_capture_key(s: MachineState, keypad: u16) -> MachineState
    recommends
        keypad != 0,
        s.keypad_wait_register < 16,
{
    MachineState {
        keypad_wait: false,
        v: s.v.update(s.keypad_wait_register as int, lowest_set_bit(keypad) as u8),
        ..s
    }
}

/// The whole effect of one tick: the start-of-tick effects, then either the
/// wait-for-key sub-machine (no opcode is fetched; a nonzero keypad writes
/// the lowest pressed key index into the waiting register and resumes), or
/// fetch and dispatch of one opcode.  Fetching past the end of the address
/// space is a fatal fault.
pub open spec fn spec_tick(s: MachineState, keypad: u16, rb: u8) -> Result<
    MachineState,
    FaultKind,
>
    recommends
        s.wf(),
{
    let s1 = spec_tick_pre(s, keypad);
    if s1.keypad_wait {
        if keypad != 0 {
            Ok(spec_capture_key(s1, keypad))
        } else {
            Ok(s1)
        }
    } else if s1.pc + 1 >= 4096 {
        Err(FaultKind::MemoryOutOfBounds)
    } else {
        spec_step(s1, spec_fetch(s1), rb)
    }
}

/// Whether this tick will consult the random source.
pub open spec fn tick_uses_rand(s: MachineState, keypad: u16) -> bool {
    let s1 = spec_tick_pre(s, keypad);
    !s1.keypad_wait && s1.pc + 1 < 4096 && is_rand_op(spec_fetch(s1))
}

} // verus!
