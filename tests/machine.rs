use chip8::cpu::{Fault, LoadError, MachineState, CPU};
use chip8::display::Display;
use chip8::instruction::{decode, Instruction};

fn machine(program: &[u8]) -> CPU {
    CPU::with_program(&program.to_vec(), 7).expect("program loads")
}

#[test]
fn add_then_halt_scenario() {
    let mut m = machine(&[0x60, 0x05, 0x61, 0x05, 0x80, 0x14, 0x00, 0x00]);
    assert_eq!(m.run(100), MachineState::Halted);
    assert_eq!(m.register(0), 10);
    assert_eq!(m.register(15), 0);
}

#[test]
fn seventeen_nested_calls_overflow() {
    let mut program = Vec::new();
    for k in 0..17u16 {
        let target = 0x200 + 2 * (k + 1);
        program.push(0x20 | (target >> 8) as u8);
        program.push((target & 0xFF) as u8);
    }
    let mut m = machine(&program);
    for k in 0..16u16 {
        assert_eq!(m.step(), MachineState::Running);
        assert_eq!(m.stack_depth(), (k + 1) as usize);
    }
    assert_eq!(
        m.step(),
        MachineState::Faulted { pc: 0x220, fault: Fault::StackOverflow }
    );
    assert_eq!(m.pc(), 0x220);
    assert_eq!(m.stack_depth(), 16);
}

#[test]
fn return_with_empty_stack_underflows() {
    let mut m = machine(&[0x00, 0xEE]);
    assert_eq!(
        m.step(),
        MachineState::Faulted { pc: 512, fault: Fault::StackUnderflow }
    );
    assert_eq!(m.pc(), 512);

    let mut fresh = CPU::new(0);
    assert_eq!(fresh.ret(), Err(Fault::StackUnderflow));
    assert_eq!(fresh.pc(), 512);
}

#[test]
fn add_with_carry_all_pairs() {
    let mut m = CPU::new(0);
    for a in 0..=255u16 {
        for b in 0..=255u16 {
            m.load_in_register(1, a as u8);
            m.load_in_register(2, b as u8);
            m.add_xy(1, 2);
            assert_eq!(m.register(1) as u16, (a + b) % 256);
            assert_eq!(m.register(15), if a + b > 255 { 1 } else { 0 });
        }
    }
}

#[test]
fn sub_with_borrow_all_pairs() {
    let mut m = CPU::new(0);
    for a in 0..=255i32 {
        for b in 0..=255i32 {
            m.load_in_register(3, a as u8);
            m.load_in_register(4, b as u8);
            m.sub_xy(3, 4);
            assert_eq!(m.register(3) as i32, (a - b).rem_euclid(256));
            assert_eq!(m.register(15), if a >= b { 1 } else { 0 });
        }
    }
}

#[test]
fn reverse_subtract_sets_flag_when_no_borrow() {
    let mut m = CPU::new(0);
    m.load_in_register(0, 3);
    m.load_in_register(1, 10);
    m.subn_xy(0, 1);
    assert_eq!(m.register(0), 7);
    assert_eq!(m.register(15), 1);
    m.load_in_register(0, 10);
    m.load_in_register(1, 3);
    m.subn_xy(0, 1);
    assert_eq!(m.register(0), 249);
    assert_eq!(m.register(15), 0);
    m.load_in_register(0, 5);
    m.load_in_register(1, 5);
    m.subn_xy(0, 1);
    assert_eq!(m.register(0), 0);
    assert_eq!(m.register(15), 1);
}

#[test]
fn shifts_capture_the_bit_shifted_out() {
    let mut m = CPU::new(0);
    for a in 0..=255u8 {
        m.load_in_register(5, a);
        m.shr_x(5);
        assert_eq!(m.register(5), a >> 1);
        assert_eq!(m.register(15), a & 1);
        m.load_in_register(5, a);
        m.shl_x(5);
        assert_eq!(m.register(5), a.wrapping_shl(1));
        assert_eq!(m.register(15), a >> 7);
    }
}

#[test]
fn shift_of_the_flag_register_keeps_the_bit() {
    let mut m = CPU::new(0);
    m.load_in_register(15, 0x81);
    m.shl_x(15);
    assert_eq!(m.register(15), 1);
}

#[test]
fn clear_screen_turns_every_pixel_off() {
    // sprite 0xFF at address 0x204, drawn at (0, 0), then cleared
    let mut m = machine(&[0xD0, 0x11, 0x00, 0xE0, 0xFF, 0x00]);
    m.set_I(0x204);
    assert_eq!(m.step(), MachineState::Running);
    assert!(m.pixel(0, 0));
    assert!(m.pixel(7, 0));
    assert_eq!(m.step(), MachineState::Running);
    for y in 0..32 {
        for x in 0..64 {
            assert!(!m.pixel(x, y));
        }
    }
}

#[test]
fn display_clear_directly() {
    let mut d = Display::new();
    d.set_pixel(3, 4, true);
    assert!(d.toggle(5, 6) == false);
    assert!(d.pixel(3, 4));
    assert!(d.pixel(5, 6));
    d.clear();
    for y in 0..32 {
        for x in 0..64 {
            assert!(!d.pixel(x, y));
        }
    }
    assert!(!d.pixel(64, 0));
    assert!(!d.pixel(0, 32));
}

#[test]
fn drawing_twice_restores_and_collides() {
    // two sprite rows 0b1010_0101 and 0b1111_0000 at 0x200
    let mut m = machine(&[0xA5, 0xF0]);
    m.set_I(0x200);
    m.load_in_register(1, 10);
    m.load_in_register(2, 5);
    m.draw(1, 2, 2).unwrap();
    assert_eq!(m.register(15), 0);
    assert!(m.pixel(10, 5));
    assert!(!m.pixel(11, 5));
    assert!(m.pixel(12, 5));
    assert!(m.pixel(17, 5));
    assert!(m.pixel(13, 6));
    assert!(!m.pixel(14, 6));
    m.draw(1, 2, 2).unwrap();
    assert_eq!(m.register(15), 1);
    for y in 0..32 {
        for x in 0..64 {
            assert!(!m.pixel(x, y));
        }
    }
}

#[test]
fn draw_without_overlap_does_not_collide() {
    let mut m = machine(&[0xF0]);
    m.set_I(0x200);
    m.load_in_register(0, 0);
    m.load_in_register(1, 0);
    m.draw(0, 1, 1).unwrap();
    m.load_in_register(0, 4);
    m.draw(0, 1, 1).unwrap();
    assert_eq!(m.register(15), 0);
    for x in 0..4 {
        assert!(m.pixel(x, 0));
    }
    for x in 4..8 {
        assert!(m.pixel(x, 0));
    }
    assert!(!m.pixel(8, 0));
}

#[test]
fn draw_clips_at_the_grid_edge() {
    let mut m = machine(&[0xFF, 0xFF]);
    m.set_I(0x200);
    m.load_in_register(0, 60);
    m.load_in_register(1, 31);
    m.draw(0, 1, 2).unwrap();
    for x in 60..64 {
        assert!(m.pixel(x, 31));
    }
    for x in 0..4 {
        assert!(!m.pixel(x, 31));
        assert!(!m.pixel(x, 0));
    }
    assert!(!m.pixel(60, 0));
}

#[test]
fn draw_reduces_position_modulo_grid() {
    let mut m = machine(&[0x80]);
    m.set_I(0x200);
    m.load_in_register(0, 64 + 3);
    m.load_in_register(1, 32 + 2);
    m.draw(0, 1, 1).unwrap();
    assert!(m.pixel(3, 2));
}

#[test]
fn draw_past_memory_faults() {
    let mut m = CPU::new(0);
    m.set_I(0xFFF);
    assert_eq!(m.draw(0, 1, 2), Err(Fault::AddressFault { addr: 4096 }));
    m.set_I(0xFFF);
    assert_eq!(m.draw(0, 1, 1), Ok(()));
}

#[test]
fn call_then_return_restores_pc() {
    let mut m = CPU::new(0);
    m.jmp_to_addr(0x345);
    m.call(0x600).unwrap();
    assert_eq!(m.pc(), 0x600);
    assert_eq!(m.stack_depth(), 1);
    m.ret().unwrap();
    assert_eq!(m.pc(), 0x345);
    assert_eq!(m.stack_depth(), 0);
}

#[test]
fn call_and_return_through_steps() {
    // 0x200: call 0x206; 0x202: load v0 = 9; 0x204: halt; 0x206: return
    let mut m = machine(&[0x22, 0x06, 0x60, 0x09, 0x00, 0x00, 0x00, 0xEE]);
    assert_eq!(m.run(10), MachineState::Halted);
    assert_eq!(m.register(0), 9);
    assert_eq!(m.pc(), 0x206);
}

#[test]
fn unknown_opcode_is_a_decode_fault() {
    let mut m = machine(&[0x50, 0x01]);
    assert_eq!(
        m.step(),
        MachineState::Faulted { pc: 512, fault: Fault::DecodeFault { opcode: 0x5001 } }
    );
    assert_eq!(decode(0xF00A), None);
    assert_eq!(decode(0x00E1), None);
    assert_eq!(decode(0x812F), None);
}

#[test]
fn decode_extracts_fields() {
    assert_eq!(decode(0x0000), Some(Instruction::Halt));
    assert_eq!(decode(0x00E0), Some(Instruction::ClearScreen));
    assert_eq!(decode(0x00EE), Some(Instruction::Return));
    assert_eq!(decode(0x1ABC), Some(Instruction::Jump { addr: 0xABC }));
    assert_eq!(decode(0x2ABC), Some(Instruction::Call { addr: 0xABC }));
    assert_eq!(decode(0x3A12), Some(Instruction::SkipEq { x: 0xA, kk: 0x12 }));
    assert_eq!(decode(0x4A12), Some(Instruction::SkipNeq { x: 0xA, kk: 0x12 }));
    assert_eq!(decode(0x5AB0), Some(Instruction::SkipEqRegisters { x: 0xA, y: 0xB }));
    assert_eq!(decode(0x6A12), Some(Instruction::Load { x: 0xA, kk: 0x12 }));
    assert_eq!(decode(0x7A12), Some(Instruction::AddImmediate { x: 0xA, kk: 0x12 }));
    assert_eq!(decode(0x8AB0), Some(Instruction::Move { x: 0xA, y: 0xB }));
    assert_eq!(decode(0x8AB1), Some(Instruction::Or { x: 0xA, y: 0xB }));
    assert_eq!(decode(0x8AB2), Some(Instruction::And { x: 0xA, y: 0xB }));
    assert_eq!(decode(0x8AB3), Some(Instruction::Xor { x: 0xA, y: 0xB }));
    assert_eq!(decode(0x8AB4), Some(Instruction::AddRegisters { x: 0xA, y: 0xB }));
    assert_eq!(decode(0x8AB5), Some(Instruction::Sub { x: 0xA, y: 0xB }));
    assert_eq!(decode(0x8AB6), Some(Instruction::ShiftRight { x: 0xA }));
    assert_eq!(decode(0x8AB7), Some(Instruction::SubReverse { x: 0xA, y: 0xB }));
    assert_eq!(decode(0x8ABE), Some(Instruction::ShiftLeft { x: 0xA }));
    assert_eq!(decode(0x9AB0), Some(Instruction::SkipNeqRegisters { x: 0xA, y: 0xB }));
    assert_eq!(decode(0xAABC), Some(Instruction::SetIndex { addr: 0xABC }));
    assert_eq!(decode(0xB1BC), Some(Instruction::JumpOffset { x: 1, addr: 0x1BC }));
    assert_eq!(decode(0xCA0F), Some(Instruction::Random { x: 0xA, kk: 0x0F }));
    assert_eq!(decode(0xDAB5), Some(Instruction::Draw { x: 0xA, y: 0xB, n: 5 }));
}

#[test]
fn fetch_past_memory_is_an_address_fault() {
    let mut m = machine(&[0x1F, 0xFF]);
    assert_eq!(m.step(), MachineState::Running);
    assert_eq!(m.pc(), 0xFFF);
    assert_eq!(m.read_opcode(), Err(Fault::AddressFault { addr: 4096 }));
    assert_eq!(
        m.step(),
        MachineState::Faulted { pc: 0xFFF, fault: Fault::AddressFault { addr: 4096 } }
    );
    m.jmp_to_addr(5000);
    assert_eq!(m.read_opcode(), Err(Fault::AddressFault { addr: 5000 }));
}

#[test]
fn read_opcode_is_big_endian() {
    let m = machine(&[0x12, 0x34]);
    assert_eq!(m.read_opcode(), Ok(0x1234));
}

#[test]
fn loading_rejects_empty_and_oversized_images() {
    assert_eq!(CPU::with_program(&Vec::new(), 0).err(), Some(LoadError::Empty));
    let big = vec![0u8; 4096 - 512 + 1];
    assert_eq!(
        CPU::with_program(&big, 0).err(),
        Some(LoadError::TooLarge { len: 3585 })
    );
    let full = vec![0xAAu8; 4096 - 512];
    let m = CPU::with_program(&full, 0).expect("fits exactly");
    assert_eq!(m.memory_at(511), Some(0));
    assert_eq!(m.memory_at(512), Some(0xAA));
    assert_eq!(m.memory_at(4095), Some(0xAA));
    assert_eq!(m.memory_at(4096), None);
    assert_eq!(m.pc(), 512);
    assert_eq!(m.index(), 0);
}

#[test]
fn add_immediate_wraps_without_touching_the_flag() {
    let mut m = machine(&[0x6F, 0x07, 0x60, 0xFF, 0x70, 0x02, 0x00, 0x00]);
    assert_eq!(m.run(10), MachineState::Halted);
    assert_eq!(m.register(0), 1);
    assert_eq!(m.register(15), 7);
}

#[test]
fn add_with_carry_overflow_sets_flag() {
    let mut m = machine(&[0x60, 0xF0, 0x61, 0x20, 0x80, 0x14, 0x00, 0x00]);
    assert_eq!(m.run(10), MachineState::Halted);
    assert_eq!(m.register(0), 0x10);
    assert_eq!(m.register(15), 1);
}

#[test]
fn bitwise_and_move_instructions() {
    let mut m = CPU::new(0);
    m.load_in_register(0, 0b1100);
    m.load_in_register(1, 0b1010);
    m.or_xy(0, 1);
    assert_eq!(m.register(0), 0b1110);
    m.load_in_register(0, 0b1100);
    m.and_xy(0, 1);
    assert_eq!(m.register(0), 0b1000);
    m.load_in_register(0, 0b1100);
    m.xor_xy(0, 1);
    assert_eq!(m.register(0), 0b0110);
    m.set_xy(2, 1);
    assert_eq!(m.register(2), 0b1010);
    assert_eq!(m.register(15), 0);
}

#[test]
fn skips_compare_against_literals_and_registers() {
    let mut m = CPU::new(0);
    m.load_in_register(3, 0x42);
    m.skip_if_eq(3, 0x42);
    assert_eq!(m.pc(), 514);
    m.skip_if_eq(3, 0x41);
    assert_eq!(m.pc(), 514);
    m.skip_if_neq(3, 0x41);
    assert_eq!(m.pc(), 516);
    m.skip_if_neq(3, 0x42);
    assert_eq!(m.pc(), 516);
    m.load_in_register(4, 0x42);
    m.skip_if_eq_registers(3, 4);
    assert_eq!(m.pc(), 518);
    m.skip_if_neq_registers(3, 4);
    assert_eq!(m.pc(), 518);
    m.load_in_register(4, 0);
    m.skip_if_neq_registers(3, 4);
    assert_eq!(m.pc(), 520);
}

#[test]
fn skip_instruction_skips_next_opcode() {
    // v0 = 1; skip if v0 == 1; v1 = 5 (skipped); halt
    let mut m = machine(&[0x60, 0x01, 0x30, 0x01, 0x61, 0x05, 0x00, 0x00]);
    assert_eq!(m.run(10), MachineState::Halted);
    assert_eq!(m.register(1), 0);
    assert_eq!(m.pc(), 0x208);
}

#[test]
fn jump_with_offset_adds_register() {
    let mut m = CPU::new(0);
    m.load_in_register(2, 0x10);
    m.jmp_to_addr_x(2, 0x300);
    assert_eq!(m.pc(), 0x310);
    let mut s = machine(&[0x62, 0x04, 0xB2, 0x00]);
    assert_eq!(s.run(2), MachineState::Running);
    assert_eq!(s.pc(), 0x204);
}

#[test]
fn random_byte_is_masked() {
    let mut m = CPU::new(0);
    m.set_rand_x(1, 0x0F, 0xAB);
    assert_eq!(m.register(1), 0x0B);
    m.set_rand_x(1, 0x00, 0xAB);
    assert_eq!(m.register(1), 0);
    let mut r = machine(&[0xC0, 0x00, 0xC1, 0x0F, 0x00, 0x00]);
    assert_eq!(r.run(10), MachineState::Halted);
    assert_eq!(r.register(0), 0);
    assert!(r.register(1) <= 0x0F);
}

#[test]
fn same_seed_gives_same_random_bytes() {
    let program = [0xC0, 0xFF, 0xC1, 0xFF, 0xC2, 0xFF, 0x00, 0x00];
    let mut a = machine(&program);
    let mut b = machine(&program);
    a.run(10);
    b.run(10);
    for x in 0..3 {
        assert_eq!(a.register(x), b.register(x));
    }
}

#[test]
fn set_index_changes_only_the_index() {
    let mut m = machine(&[0xA1, 0x23, 0x00, 0x00]);
    assert_eq!(m.run(10), MachineState::Halted);
    assert_eq!(m.index(), 0x123);
    assert_eq!(m.register(15), 0);
}

#[test]
fn halt_moves_pc_past_the_halt_opcode() {
    let mut m = machine(&[0x00, 0x00]);
    assert_eq!(m.step(), MachineState::Halted);
    assert_eq!(m.pc(), 514);
}

#[test]
fn run_stops_after_step_budget() {
    // an endless jump to itself
    let mut m = machine(&[0x12, 0x00]);
    assert_eq!(m.run(50), MachineState::Running);
    assert_eq!(m.pc(), 0x200);
}

#[test]
fn execute_decoded_instruction() {
    let mut m = CPU::new(0);
    assert_eq!(m.execute(Instruction::Load { x: 7, kk: 99 }), Ok(()));
    assert_eq!(m.register(7), 99);
    assert_eq!(m.execute(Instruction::Return), Err(Fault::StackUnderflow));
}
