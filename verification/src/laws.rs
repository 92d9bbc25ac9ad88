//! The laws of the instruction set, stated over the machine model and
//! proved once and for all: flag conventions of the arithmetic and shift
//! opcodes, the clear-screen effect, the call/return round trip, the
//! wait-for-key sub-machine, and the timer decrement.

use vstd::prelude::*;
use crate::bits::lowest_set_bit;
use crate::machine::{
    nib_a, nib_n, nib_x, nib_y, op_nnn, spec_step, spec_tick, spec_tick_pre, MachineState,
};

verus! {

/// add-reg: for any two registers, the flag register is 1 exactly when the
/// sum exceeds 255, and the destination holds the truncated low byte.  The
/// destination claim needs the destination not to be the flag register
/// itself, which the flag write overrides.
pub proof fn law_add_reg_carry(s: MachineState, op: u16)
    requires
        s.wf(),
        s.pc + 4 <= 0xFFFF,
        nib_a(op) == 0x8,
        nib_n(op) == 0x4,
        nib_x(op) != 15,
    ensures
        (spec_step(s, op, 0) is Ok),
        spec_step(s, op, 0)->Ok_0.v[nib_x(op) as int] == (s.v[nib_x(op) as int] + s.v[nib_y(
            op,
        ) as int]) % 256,
        spec_step(s, op, 0)->Ok_0.v[15] == (if s.v[nib_x(op) as int] + s.v[nib_y(op) as int]
            > 255 {
            1u8
        } else {
            0u8
        }),
{
    crate::machine::lemma_decode_bounds(op);
}

/// sub: the flag register is 1 exactly when no borrow occurs (`Vx >= Vy`
/// before the subtraction), and the destination holds the difference
/// modulo 256.  The destination claim needs the destination not to be the
/// flag register itself, which the flag write overrides.
pub proof fn law_sub_borrow(s: MachineState, op: u16)
    requires
        s.wf(),
        s.pc + 4 <= 0xFFFF,
        nib_a(op) == 0x8,
        nib_n(op) == 0x5,
        nib_x(op) != 15,
    ensures
        (spec_step(s, op, 0) is Ok),
        spec_step(s, op, 0)->Ok_0.v[nib_x(op) as int] == (s.v[nib_x(op) as int] - s.v[nib_y(
            op,
        ) as int] + 256) % 256,
        spec_step(s, op, 0)->Ok_0.v[15] == (if s.v[nib_x(op) as int] >= s.v[nib_y(op) as int] {
            1u8
        } else {
            0u8
        }),
{
    crate::machine::lemma_decode_bounds(op);
}

/// shr: the flag register holds the low bit of `Vx`, read before the
/// shift, and the destination holds `Vx` shifted right by one; for every
/// value of `Vx`.  The destination claim needs the destination not to be
/// the flag register itself, which the flag write overrides.
pub proof fn law_shr_flag(s: MachineState, op: u16)
    requires
        s.wf(),
        s.pc + 4 <= 0xFFFF,
        nib_a(op) == 0x8,
        nib_n(op) == 0x6,
        nib_x(op) != 15,
    ensures
        (spec_step(s, op, 0) is Ok),
        spec_step(s, op, 0)->Ok_0.v[nib_x(op) as int] == s.v[nib_x(op) as int] >> 1u8,
        spec_step(s, op, 0)->Ok_0.v[15] == s.v[nib_x(op) as int] & 1,
{
    crate::machine::lemma_decode_bounds(op);
}

/// shl: the flag register holds the high bit of `Vx`, read before the
/// shift, and the destination holds `Vx` shifted left by one; for every
/// value of `Vx`.  The destination claim needs the destination not to be
/// the flag register itself, which the flag write overrides.
pub proof fn law_shl_flag(s: MachineState, op: u16)
    requires
        s.wf(),
        s.pc + 4 <= 0xFFFF,
        nib_a(op) == 0x8,
        nib_n(op) == 0xe,
        nib_x(op) != 15,
    ensures
        (spec_step(s, op, 0) is Ok),
        spec_step(s, op, 0)->Ok_0.v[nib_x(op) as int] == s.v[nib_x(op) as int] << 1u8,
        spec_step(s, op, 0)->Ok_0.v[15] == s.v[nib_x(op) as int] >> 7u8,
{
    crate::machine::lemma_decode_bounds(op);
}

/// clear-screen: every framebuffer row becomes zero, the changed flag is
/// set, and the program counter advances by exactly one instruction.
pub proof fn law_clear_screen(s: MachineState)
    requires
        s.wf(),
        s.pc + 4 <= 0xFFFF,
    ensures
        (spec_step(s, 0x00E0, 0) is Ok),
        forall|r: int| 0 <= r < 32 ==> #[trigger] spec_step(s, 0x00E0, 0)->Ok_0.vram[r] == 0u64,
        spec_step(s, 0x00E0, 0)->Ok_0.vram_changed,
        spec_step(s, 0x00E0, 0)->Ok_0.pc == s.pc + 2,
{
}

/// call/return round trip: a call pushes the address of the instruction
/// after it and jumps; any later state that still holds that return address
/// at the same depth returns to exactly that address, with the stack
/// pointer back at its pre-call value.
pub proof fn law_call_return(s: MachineState, op: u16, t: MachineState)
    requires
        s.wf(),
        s.pc + 4 <= 0xFFFF,
        nib_a(op) == 0x2,
        s.sp < 16,
        t.wf(),
        t.pc + 4 <= 0xFFFF,
        t.sp == s.sp + 1,
        t.stack[s.sp as int] == s.pc + 2,
    ensures
        (spec_step(s, op, 0) is Ok),
        spec_step(s, op, 0)->Ok_0.pc == op_nnn(op),
        spec_step(s, op, 0)->Ok_0.sp == s.sp + 1,
        spec_step(s, op, 0)->Ok_0.stack[s.sp as int] == s.pc + 2,
        (spec_step(t, 0x00EE, 0) is Ok),
        spec_step(t, 0x00EE, 0)->Ok_0.pc == s.pc + 2,
        spec_step(t, 0x00EE, 0)->Ok_0.sp == s.sp,
{
}

/// wait-for-key, an empty keypad: a tick leaves the program counter, the
/// registers and the waiting state untouched; only the timers move.
pub proof fn law_wait_key_idle(s: MachineState)
    requires
        s.wf(),
        s.keypad_wait,
    ensures
        (spec_tick(s, 0, 0) is Ok),
        spec_tick(s, 0, 0)->Ok_0.pc == s.pc,
        spec_tick(s, 0, 0)->Ok_0.v == s.v,
        spec_tick(s, 0, 0)->Ok_0.keypad_wait,
        spec_tick(s, 0, 0)->Ok_0.keypad_wait_register == s.keypad_wait_register,
        spec_tick(s, 0, 0)->Ok_0.delay_timer == spec_tick_pre(s, 0).delay_timer,
        spec_tick(s, 0, 0)->Ok_0.sound_timer == spec_tick_pre(s, 0).sound_timer,
{
}

/// wait-for-key, a keypad with its lowest bit set: a tick writes key 0 into
/// the waiting register, resumes, and still does not move the program
/// counter.
pub proof fn law_wait_key_capture(s: MachineState, keypad: u16)
    requires
        s.wf(),
        s.keypad_wait,
        keypad & 1 == 1,
    ensures
        (spec_tick(s, keypad, 0) is Ok),
        spec_tick(s, keypad, 0)->Ok_0.pc == s.pc,
        !spec_tick(s, keypad, 0)->Ok_0.keypad_wait,
        spec_tick(s, keypad, 0)->Ok_0.v == s.v.update(s.keypad_wait_register as int, 0u8),
{
    assert(keypad != 0 && (keypad >> 0u16) & 1 == 1) by (bit_vector)
        requires
            keypad & 1 == 1,
    ;
    assert(lowest_set_bit(keypad) == 0);
}

/// Timers: every tick decrements each nonzero timer by exactly one before
/// anything else happens, and a zero timer stays at zero; this holds
/// whether or not the machine is waiting for a key.
pub proof fn law_timer_decrement(s: MachineState, keypad: u16)
    ensures
        spec_tick_pre(s, keypad).delay_timer == (if s.delay_timer > 0 {
            s.delay_timer - 1
        } else {
            0
        }),
        spec_tick_pre(s, keypad).sound_timer == (if s.sound_timer > 0 {
            s.sound_timer - 1
        } else {
            0
        }),
{
}

} // verus!
