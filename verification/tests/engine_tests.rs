//! Whole-engine scenarios: programs run through tick, fatal faults, the
//! wait-for-key sub-machine, timers, and the cartridge buffer.

use chip8::cartridge::CartridgeDriver;
use chip8::machine::FaultKind;
use chip8::processor::Processor;

/// The pixel at column `x` of row `y`: bit `63 - x` of the row word.
fn pix(vram: &Vec<u64>, x: usize, y: usize) -> u64 {
    (vram[y] >> (63 - x)) & 1
}

// A clear-screen opcode (0x00E0) at 0x200 followed by a jump-to-self
// (0x1202) at 0x202.  The first tick runs the clear: changed, all rows
// zero, no beep.  The second tick runs the jump: unchanged output, all
// rows still zero, program counter parked at 0x202.
#[test]
fn test_clear_then_jump_program() {
    let mut processor = Processor::new();
    processor.load(&[0x00, 0xE0, 0x12, 0x02]);

    let out1 = processor.tick(0).unwrap();
    assert_eq!(out1.vram_changed, true);
    assert_eq!(out1.beep, false);
    assert!(out1.vram.iter().all(|row| *row == 0));
    assert_eq!(processor.pc, 0x202);

    let out2 = processor.tick(0).unwrap();
    assert_eq!(out2.vram_changed, false);
    assert_eq!(out2.beep, false);
    assert!(out2.vram.iter().all(|row| *row == 0));
    assert_eq!(processor.pc, 0x202);
}

// return with an empty call stack is a fatal fault that reports the
// opcode and the program counter and leaves the machine untouched.
#[test]
fn test_fault_stack_underflow() {
    let mut processor = Processor::new();
    let fault = processor.run_opcode(0x00ee).unwrap_err();
    assert_eq!(fault.kind, FaultKind::StackUnderflow);
    assert_eq!(fault.pc, 0x200);
    assert_eq!(fault.opcode, 0x00ee);
    assert_eq!(processor.pc, 0x200);
    assert_eq!(processor.sp, 0);
}

// call with all 16 stack slots taken is a fatal fault.
#[test]
fn test_fault_stack_overflow() {
    let mut processor = Processor::new();
    processor.sp = 16;
    let fault = processor.run_opcode(0x2345).unwrap_err();
    assert_eq!(fault.kind, FaultKind::StackOverflow);
    assert_eq!(fault.opcode, 0x2345);
    assert_eq!(processor.sp, 16);
    assert_eq!(processor.pc, 0x200);
}

// draw reading past the end of the address space is a fatal fault.
#[test]
fn test_fault_draw_out_of_bounds() {
    let mut processor = Processor::new();
    processor.i = 4095;
    let fault = processor.run_opcode(0xd002).unwrap_err();
    assert_eq!(fault.kind, FaultKind::MemoryOutOfBounds);
    // one byte still fits
    processor.run_opcode(0xd001).unwrap();
}

// bcd writing past the end of the address space is a fatal fault.
#[test]
fn test_fault_bcd_out_of_bounds() {
    let mut processor = Processor::new();
    processor.i = 4094;
    let fault = processor.run_opcode(0xf533).unwrap_err();
    assert_eq!(fault.kind, FaultKind::MemoryOutOfBounds);
}

// store-regs writing past the end of the address space is a fatal fault.
#[test]
fn test_fault_store_regs_out_of_bounds() {
    let mut processor = Processor::new();
    processor.i = 4081;
    let fault = processor.run_opcode(0xff55).unwrap_err();
    assert_eq!(fault.kind, FaultKind::MemoryOutOfBounds);
    processor.i = 4080;
    processor.run_opcode(0xff55).unwrap();
}

// load-regs reading past the end of the address space is a fatal fault.
#[test]
fn test_fault_load_regs_out_of_bounds() {
    let mut processor = Processor::new();
    processor.i = 4081;
    let fault = processor.run_opcode(0xff65).unwrap_err();
    assert_eq!(fault.kind, FaultKind::MemoryOutOfBounds);
}

// fetching from past the end of the address space is a fatal fault with
// opcode 0; the timers still moved.
#[test]
fn test_fault_fetch_out_of_bounds() {
    let mut processor = Processor::new();
    processor.pc = 4095;
    processor.delay_timer = 5;
    let fault = processor.tick(0).unwrap_err();
    assert_eq!(fault.kind, FaultKind::MemoryOutOfBounds);
    assert_eq!(fault.pc, 4095);
    assert_eq!(fault.opcode, 0);
    assert_eq!(processor.delay_timer, 4);
}

// add-reg carry: 200 + 100 == 300 leaves the low byte and the carry flag.
#[test]
fn test_add_reg_carry_values() {
    let mut processor = Processor::new();
    processor.v[0] = 200;
    processor.v[1] = 100;
    processor.run_opcode(0x8014).unwrap();
    assert_eq!(processor.v[0], 44);
    assert_eq!(processor.v[0x0f], 1);
}

// call then return: the program counter comes back to the instruction
// after the call, and the stack pointer to its pre-call value.
#[test]
fn test_call_return_round_trip() {
    let mut processor = Processor::new();
    processor.run_opcode(0x2400).unwrap();
    assert_eq!(processor.pc, 0x400);
    assert_eq!(processor.sp, 1);
    assert_eq!(processor.stack[0], 0x202);
    processor.run_opcode(0x00ee).unwrap();
    assert_eq!(processor.pc, 0x202);
    assert_eq!(processor.sp, 0);
}

// drawing the same nonzero sprite twice at the same spot erases it again
// and reports a collision on the second draw.
#[test]
fn test_draw_twice_cancels() {
    let mut processor = Processor::new();
    processor.ram[0x300] = 0b10110010;
    processor.ram[0x301] = 0b01001101;
    processor.i = 0x300;
    processor.v[0] = 60;
    processor.v[1] = 30;
    processor.run_opcode(0xd012).unwrap();
    assert_eq!(processor.v[0x0f], 0);
    processor.run_opcode(0xd012).unwrap();
    assert_eq!(processor.v[0x0f], 1);
    for row in 0..32 {
        assert_eq!(processor.vram[row], 0);
    }
}

// wait-for-key with only the second key pressed writes key 1.
#[test]
fn test_wait_key_second_bit() {
    let mut processor = Processor::new();
    processor.run_opcode(0xf20a).unwrap();
    assert_eq!(processor.keypad_wait, true);
    processor.tick(0b10).unwrap();
    assert_eq!(processor.keypad_wait, false);
    assert_eq!(processor.v[2], 1);
}

// zero timers stay at zero.
#[test]
fn test_timers_floor() {
    let mut processor = Processor::new();
    processor.load(&[0x12, 0x00]);
    processor.tick(0).unwrap();
    assert_eq!(processor.delay_timer, 0);
    assert_eq!(processor.sound_timer, 0);
}

// the beep flag follows the sound timer, sampled after the decrement.
#[test]
fn test_beep_follows_sound_timer() {
    let mut processor = Processor::new();
    processor.load(&[0x12, 0x00]);
    processor.sound_timer = 2;
    let out1 = processor.tick(0).unwrap();
    assert_eq!(out1.beep, true);
    assert_eq!(processor.sound_timer, 1);
    let out2 = processor.tick(0).unwrap();
    assert_eq!(out2.beep, false);
    assert_eq!(processor.sound_timer, 0);
}

// an unrecognized opcode is absorbed and advances the program counter.
#[test]
fn test_unknown_opcode_advances() {
    let mut processor = Processor::new();
    processor.run_opcode(0x0123).unwrap();
    assert_eq!(processor.pc, 0x202);
    processor.run_opcode(0x5671).unwrap();
    assert_eq!(processor.pc, 0x204);
}

// loading more bytes than the address space holds drops the excess.
#[test]
fn test_load_truncates() {
    let mut processor = Processor::new();
    let data = vec![7u8; 4000];
    processor.load(&data);
    assert_eq!(processor.ram[0x200], 7);
    assert_eq!(processor.ram[4095], 7);
    // nothing below the program start was touched
    assert_eq!(processor.ram[0], 0xF0);
}

// a sprite drawn at the right edge wraps to the left edge of the same row.
#[test]
fn test_draw_wrap_pixels() {
    let mut processor = Processor::new();
    processor.ram[0x300] = 0b11000001;
    processor.i = 0x300;
    processor.v[0] = 62;
    processor.v[1] = 5;
    processor.run_opcode(0xd011).unwrap();
    assert_eq!(pix(&processor.vram, 62, 5), 1);
    assert_eq!(pix(&processor.vram, 63, 5), 1);
    assert_eq!(pix(&processor.vram, 0, 5), 0);
    assert_eq!(pix(&processor.vram, 5, 5), 1);
    assert_eq!(pix(&processor.vram, 6, 5), 0);
}

// the cartridge buffer holds the bytes it was given, zero-padded.
#[test]
fn test_cartridge_from_bytes() {
    let c = CartridgeDriver::from_bytes(&[9, 8, 7]);
    assert_eq!(c.size, 3);
    assert_eq!(c.rom.len(), 3584);
    assert_eq!(c.rom[0], 9);
    assert_eq!(c.rom[1], 8);
    assert_eq!(c.rom[2], 7);
    assert_eq!(c.rom[3], 0);
    assert_eq!(c.rom[3583], 0);
}

// an over-long cartridge is cut at the buffer size.
#[test]
fn test_cartridge_truncates() {
    let data = vec![1u8; 5000];
    let c = CartridgeDriver::from_bytes(&data);
    assert_eq!(c.size, 3584);
    assert_eq!(c.rom.len(), 3584);
}

// the font address opcode times five lands on the glyph table.
#[test]
fn test_font_glyph_lookup() {
    let mut processor = Processor::new();
    processor.v[3] = 0xF;
    processor.run_opcode(0xf329).unwrap();
    assert_eq!(processor.i, 75);
    assert_eq!(processor.ram[processor.i], 0xF0);
}
