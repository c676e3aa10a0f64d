use chip8::cpu::{read_opcode, Cpu};
use chip8::display::FONT_SET;
use chip8::instruction::decode;
use chip8::machine::{Fault, Outcome};

fn machine_with(program: &[u8]) -> Cpu {
    let mut cpu = Cpu::new();
    cpu.reset();
    cpu.load_program(program.to_vec()).unwrap();
    cpu
}

#[test]
fn it_resets() {
    let mut cpu = Cpu::new();
    cpu.i = 2001;
    cpu.pc = 2002;
    cpu.memory = [4; 4096];
    cpu.v = [1; 16];
    cpu.stack = vec![1, 2, 3];
    cpu.dt = 120;
    cpu.st = 120;
    cpu.reset();

    assert_eq!(cpu.i, 0, "i does not reset");
    assert_eq!(cpu.pc, 512, "pc does not reset");
    assert_eq!(cpu.memory[80..], [0; 4096][80..], "memory does not reset");
    assert_eq!(cpu.v, [0; 16], "register does not reset");
    assert_eq!(cpu.stack, vec![], "stack does not reset");
    assert_eq!(cpu.dt, 0, "delay timer does not reset");
    assert_eq!(cpu.st, 0, "sound timer does not reset");
}

#[test]
fn it_increments() {
    let mut cpu = Cpu::new();
    cpu.reset();
    let _ = cpu.execute_cycle();
    let _ = cpu.execute_cycle();
    let _ = cpu.execute_cycle();
    let _ = cpu.execute_cycle();

    assert_eq!(cpu.pc, 512 + 8, "pc does not increment");
}

#[test]
fn it_reads_opcode() {
    let mut cpu = Cpu::new();
    cpu.reset();

    let mut opcode = read_opcode(cpu.memory, 0);
    assert_eq!(opcode, 0xF090, "wrong opcode read");

    opcode = read_opcode(cpu.memory, 81);
    assert_eq!(opcode, 0x0000, "wrong opcode read");

    cpu.memory[202] = 0xFA;
    cpu.memory[203] = 0x02;
    opcode = read_opcode(cpu.memory, 202);
    assert_eq!(opcode, 0xFA02, "wrong opcode read");
}

#[test]
fn it_loads_program() {
    let mut cpu = Cpu::new();
    cpu.reset();

    let _ = cpu.load_program(vec![0x12, 0x24, 0xFD, 0x0A]);

    assert_eq!(cpu.memory[0x200], 0x12, "program not loaded");
    assert_eq!(cpu.memory[0x200 + 1], 0x24, "program not loaded");
    assert_eq!(cpu.memory[0x200 + 2], 0xFD, "program not loaded");
    assert_eq!(cpu.memory[0x200 + 3], 0x0A, "program not loaded");
}

#[test]
fn it_works() {
    let mut cpu = Cpu::new();
    cpu.pc = 1001;

    let outcome = cpu.process_opcode(0x2ABC);
    assert_eq!(1, 1, "Hello it works");
    assert_eq!(outcome, Ok(Outcome::Done));
    assert_eq!(cpu.stack, vec![1001]);
    assert_eq!(cpu.pc, 0xABC);
}

#[test]
fn new_interpreter_is_blank_and_points_at_the_program_area() {
    let cpu = Cpu::new();
    assert_eq!(cpu.i, 0);
    assert_eq!(cpu.pc, 512);
    assert_eq!(cpu.memory, [0; 4096]);
    assert_eq!(cpu.v, [0; 16]);
    assert!(cpu.stack.is_empty());
    assert_eq!((cpu.dt, cpu.st), (0, 0));
    assert_eq!(cpu.display.memory, [false; 2048]);
    assert_eq!(cpu.random.index, 0);
    let other = Cpu::default();
    assert_eq!(other.pc, 512);
    assert_eq!(other.memory, [0; 4096]);
}

#[test]
fn reset_loads_the_font_and_zeroes_the_rest() {
    let mut cpu = Cpu::new();
    cpu.memory = [0xAB; 4096];
    cpu.display.memory = [true; 2048];
    cpu.random.index = 17;
    cpu.reset();
    assert_eq!(cpu.memory[..80], FONT_SET[..]);
    assert!(cpu.memory[80..].iter().all(|b| *b == 0));
    assert_eq!(cpu.display.memory, [false; 2048]);
    assert_eq!(cpu.random.index, 17);
}

#[test]
fn load_program_places_the_bytes_at_512_and_nowhere_else() {
    let mut cpu = Cpu::new();
    cpu.reset();
    let before = cpu.memory;
    let program: Vec<u8> = (0..3584u32).map(|k| (k % 251) as u8 + 1).collect();
    assert_eq!(cpu.load_program(program.clone()), Ok(()));
    assert_eq!(cpu.memory[512..], program[..]);
    assert_eq!(cpu.memory[..512], before[..512]);
    assert_eq!(cpu.pc, 512);
}

#[test]
fn load_program_of_four_bytes_reads_back() {
    let cpu = machine_with(&[0x12, 0x24, 0xFD, 0x0A]);
    assert_eq!(cpu.memory[512..516], [0x12, 0x24, 0xFD, 0x0A]);
    assert_eq!(cpu.memory[516], 0);
    assert_eq!(cpu.memory[511], 0);
}

#[test]
fn load_program_refuses_what_does_not_fit() {
    let mut cpu = Cpu::new();
    cpu.reset();
    let before = cpu.memory;
    assert_eq!(cpu.load_program(vec![7; 3585]), Err(Fault::ProgramTooLarge));
    assert_eq!(cpu.memory, before);
    assert_eq!(cpu.load_program(vec![7; 5000]), Err(Fault::ProgramTooLarge));
    assert_eq!(cpu.memory, before);
    assert_eq!(cpu.load_program(vec![]), Ok(()));
    assert_eq!(cpu.memory, before);
}

#[test]
fn cycles_on_unknown_opcodes_advance_by_two() {
    let mut cpu = machine_with(&[0x00, 0x00, 0x5A, 0xB1, 0x8A, 0xB9, 0xE0, 0x00, 0xF0, 0xFF]);
    for k in 1..=5u16 {
        assert_eq!(cpu.execute_cycle(), Ok(Outcome::Ignored));
        assert_eq!(cpu.pc, 512 + 2 * k);
    }
    assert_eq!(cpu.v, [0; 16]);
    assert_eq!(cpu.i, 0);
    assert!(cpu.stack.is_empty());
}

#[test]
fn three_cycles_advance_by_six() {
    let mut cpu = machine_with(&[0x00, 0x01, 0x00, 0x02, 0x00, 0x03]);
    let _ = cpu.execute_cycle();
    let _ = cpu.execute_cycle();
    let _ = cpu.execute_cycle();
    assert_eq!(cpu.pc, 518);
}

#[test]
fn add_with_carry_wraps() {
    let mut cpu = Cpu::new();
    cpu.v[0] = 0xFF;
    cpu.v[1] = 0x02;
    assert_eq!(cpu.process_opcode(0x8014), Ok(Outcome::Done));
    assert_eq!(cpu.v[0], 0x01);
    assert_eq!(cpu.v[0xF], 1);
    assert_eq!(cpu.v[1], 0x02);
}

#[test]
fn add_without_carry_clears_the_flag() {
    let mut cpu = Cpu::new();
    cpu.v[2] = 200;
    cpu.v[3] = 55;
    cpu.v[0xF] = 9;
    let _ = cpu.process_opcode(0x8234);
    assert_eq!(cpu.v[2], 255);
    assert_eq!(cpu.v[0xF], 0);
}

#[test]
fn add_into_the_flag_register_leaves_the_flag() {
    let mut cpu = Cpu::new();
    cpu.v[0xF] = 200;
    cpu.v[1] = 100;
    let _ = cpu.process_opcode(0x8F14);
    assert_eq!(cpu.v[0xF], 1);
}

#[test]
fn subtract_with_borrow_wraps() {
    let mut cpu = Cpu::new();
    cpu.v[0] = 0x01;
    cpu.v[1] = 0x02;
    let _ = cpu.process_opcode(0x8015);
    assert_eq!(cpu.v[0], 0xFF);
    assert_eq!(cpu.v[0xF], 0);
}

#[test]
fn subtract_without_borrow_sets_the_flag() {
    let mut cpu = Cpu::new();
    cpu.v[4] = 10;
    cpu.v[5] = 10;
    let _ = cpu.process_opcode(0x8455);
    assert_eq!(cpu.v[4], 0);
    assert_eq!(cpu.v[0xF], 1);
}

#[test]
fn reverse_subtract_wraps_modulo_256() {
    let mut cpu = Cpu::new();
    cpu.v[0] = 0x02;
    cpu.v[1] = 0x01;
    let _ = cpu.process_opcode(0x8017);
    assert_eq!(cpu.v[0], 0xFF);
    assert_eq!(cpu.v[0xF], 0);

    cpu.v[0] = 3;
    cpu.v[1] = 10;
    let _ = cpu.process_opcode(0x8017);
    assert_eq!(cpu.v[0], 7);
    assert_eq!(cpu.v[0xF], 1);

    cpu.v[0] = 200;
    cpu.v[1] = 100;
    let _ = cpu.process_opcode(0x8017);
    assert_eq!(cpu.v[0], 156);
    assert_eq!(cpu.v[0xF], 0);
}

#[test]
fn add_byte_wraps_without_a_flag() {
    let mut cpu = Cpu::new();
    cpu.v[7] = 0xF0;
    cpu.v[0xF] = 5;
    let _ = cpu.process_opcode(0x7720);
    assert_eq!(cpu.v[7], 0x10);
    assert_eq!(cpu.v[0xF], 5);
}

#[test]
fn load_move_and_bit_operations() {
    let mut cpu = Cpu::new();
    let _ = cpu.process_opcode(0x6A5C);
    assert_eq!(cpu.v[0xA], 0x5C);
    let _ = cpu.process_opcode(0x8BA0);
    assert_eq!(cpu.v[0xB], 0x5C);
    let _ = cpu.process_opcode(0x6133);
    let _ = cpu.process_opcode(0x8A11);
    assert_eq!(cpu.v[0xA], 0x5C | 0x33);
    let _ = cpu.process_opcode(0x8B12);
    assert_eq!(cpu.v[0xB], 0x5C & 0x33);
    let _ = cpu.process_opcode(0x6C0F);
    let _ = cpu.process_opcode(0x8C13);
    assert_eq!(cpu.v[0xC], 0x0F ^ 0x33);
}

#[test]
fn shift_right_puts_the_low_bit_in_the_flag() {
    let mut cpu = Cpu::new();
    cpu.v[3] = 0b1000_0101;
    let _ = cpu.process_opcode(0x8306);
    assert_eq!(cpu.v[3], 0b0100_0010);
    assert_eq!(cpu.v[0xF], 1);
    let _ = cpu.process_opcode(0x8306);
    assert_eq!(cpu.v[3], 0b0010_0001);
    assert_eq!(cpu.v[0xF], 0);
}

#[test]
fn shift_left_puts_the_unmasked_high_bit_in_the_flag() {
    let mut cpu = Cpu::new();
    cpu.v[3] = 0b1100_0001;
    let _ = cpu.process_opcode(0x830E);
    assert_eq!(cpu.v[3], 0b1000_0010);
    assert_eq!(cpu.v[0xF], 0x80);
    cpu.v[4] = 0b0100_0001;
    let _ = cpu.process_opcode(0x840E);
    assert_eq!(cpu.v[4], 0b1000_0010);
    assert_eq!(cpu.v[0xF], 0);
}

#[test]
fn return_from_empty_stack_goes_to_512() {
    let mut cpu = Cpu::new();
    assert_eq!(cpu.process_opcode(0x00EE), Ok(Outcome::Done));
    assert_eq!(cpu.pc, 512);
    assert!(cpu.stack.is_empty());

    cpu.pc = 3000;
    let _ = cpu.process_opcode(0x00EE);
    assert_eq!(cpu.pc, 512);
}

#[test]
fn return_from_empty_stack_in_a_cycle() {
    let mut cpu = machine_with(&[0x00, 0x00, 0x00, 0xEE]);
    let _ = cpu.execute_cycle();
    assert_eq!(cpu.execute_cycle(), Ok(Outcome::Done));
    assert_eq!(cpu.pc, 512);
}

#[test]
fn call_and_return() {
    let mut cpu = machine_with(&[0x22, 0x06, 0x00, 0x00, 0x00, 0x00, 0x00, 0xEE]);
    assert_eq!(cpu.execute_cycle(), Ok(Outcome::Done));
    assert_eq!(cpu.pc, 0x206);
    assert_eq!(cpu.stack, vec![514]);
    assert_eq!(cpu.execute_cycle(), Ok(Outcome::Done));
    assert_eq!(cpu.pc, 514);
    assert!(cpu.stack.is_empty());
}

#[test]
fn jump_and_jump_with_offset() {
    let mut cpu = Cpu::new();
    let _ = cpu.process_opcode(0x1234);
    assert_eq!(cpu.pc, 0x234);
    cpu.v[0] = 0xFF;
    let _ = cpu.process_opcode(0xBFFF);
    assert_eq!(cpu.pc, 0xFFF + 0xFF);
}

#[test]
fn skips() {
    let mut cpu = Cpu::new();
    cpu.v[1] = 0x42;
    cpu.v[2] = 0x42;
    cpu.v[3] = 0x43;
    cpu.pc = 600;
    let _ = cpu.process_opcode(0x3142);
    assert_eq!(cpu.pc, 602);
    let _ = cpu.process_opcode(0x3143);
    assert_eq!(cpu.pc, 602);
    let _ = cpu.process_opcode(0x4143);
    assert_eq!(cpu.pc, 604);
    let _ = cpu.process_opcode(0x4142);
    assert_eq!(cpu.pc, 604);
    let _ = cpu.process_opcode(0x5120);
    assert_eq!(cpu.pc, 606);
    let _ = cpu.process_opcode(0x5130);
    assert_eq!(cpu.pc, 606);
    let _ = cpu.process_opcode(0x9130);
    assert_eq!(cpu.pc, 608);
    let _ = cpu.process_opcode(0x9120);
    assert_eq!(cpu.pc, 608);
}

#[test]
fn skip_wraps_the_program_counter_at_16_bits() {
    let mut cpu = Cpu::new();
    cpu.pc = 0xFFFF;
    let _ = cpu.process_opcode(0x3000);
    assert_eq!(cpu.pc, 1);
}

#[test]
fn index_register_instructions() {
    let mut cpu = Cpu::new();
    let _ = cpu.process_opcode(0xAFFF);
    assert_eq!(cpu.i, 0xFFF);
    cpu.v[2] = 0x10;
    let _ = cpu.process_opcode(0xF21E);
    assert_eq!(cpu.i, 0x100F);
    cpu.v[5] = 0x1A;
    let _ = cpu.process_opcode(0xF529);
    assert_eq!(cpu.i, 50);
}

#[test]
fn index_register_wraps_at_16_bits() {
    let mut cpu = Cpu::new();
    cpu.i = 0xFFFF;
    cpu.v[0] = 2;
    assert_eq!(cpu.process_opcode(0xF01E), Ok(Outcome::Done));
    assert_eq!(cpu.i, 1);
}

#[test]
fn timers_are_set_read_and_halved() {
    let mut cpu = machine_with(&[0x60, 0x79, 0xF0, 0x15, 0xF0, 0x18, 0xF1, 0x07, 0x00, 0x00]);
    let _ = cpu.execute_cycle();
    assert_eq!(cpu.v[0], 121);
    let _ = cpu.execute_cycle();
    assert_eq!(cpu.dt, 60);
    let _ = cpu.execute_cycle();
    assert_eq!((cpu.dt, cpu.st), (30, 60));
    let _ = cpu.execute_cycle();
    assert_eq!(cpu.v[1], 30);
    assert_eq!((cpu.dt, cpu.st), (15, 30));
    let _ = cpu.execute_cycle();
    assert_eq!((cpu.dt, cpu.st), (7, 15));
    for _ in 0..3 {
        cpu.pc = 520;
        let _ = cpu.execute_cycle();
    }
    assert_eq!((cpu.dt, cpu.st), (0, 1));
    cpu.pc = 520;
    let _ = cpu.execute_cycle();
    assert_eq!((cpu.dt, cpu.st), (0, 0));
}

#[test]
fn process_opcode_leaves_the_timers_alone() {
    let mut cpu = Cpu::new();
    cpu.dt = 100;
    cpu.st = 50;
    let _ = cpu.process_opcode(0x6011);
    assert_eq!((cpu.dt, cpu.st), (100, 50));
}

#[test]
fn decimal_digits() {
    let mut cpu = Cpu::new();
    cpu.i = 0x300;
    cpu.v[6] = 254;
    let _ = cpu.process_opcode(0xF633);
    assert_eq!(cpu.memory[0x300..0x303], [2, 5, 4]);
    cpu.v[6] = 7;
    let _ = cpu.process_opcode(0xF633);
    assert_eq!(cpu.memory[0x300..0x303], [0, 0, 7]);
}

#[test]
fn store_and_fill_registers() {
    let mut cpu = Cpu::new();
    for r in 0..16 {
        cpu.v[r] = 0x10 + r as u8;
    }
    cpu.i = 0x400;
    assert_eq!(cpu.process_opcode(0xF355), Ok(Outcome::Done));
    assert_eq!(cpu.memory[0x400..0x405], [0x10, 0x11, 0x12, 0x13, 0]);
    assert_eq!(cpu.i, 0x400);

    cpu.v = [0; 16];
    cpu.memory[0x404] = 0x77;
    assert_eq!(cpu.process_opcode(0xF265), Ok(Outcome::Done));
    assert_eq!(cpu.v[..4], [0x10, 0x11, 0x12, 0]);
    let _ = cpu.process_opcode(0xF465);
    assert_eq!(cpu.v[..6], [0x10, 0x11, 0x12, 0x13, 0x77, 0]);
}

#[test]
fn store_of_all_registers_up_to_the_last_byte() {
    let mut cpu = Cpu::new();
    cpu.v = [9; 16];
    cpu.i = 4080;
    assert_eq!(cpu.process_opcode(0xFF55), Ok(Outcome::Done));
    assert_eq!(cpu.memory[4080..], [9; 16]);
}

#[test]
fn random_takes_the_next_byte_of_the_table() {
    let mut cpu = Cpu::new();
    let _ = cpu.process_opcode(0xC0FF);
    assert_eq!(cpu.v[0], 8);
    let _ = cpu.process_opcode(0xC1FF);
    assert_eq!(cpu.v[1], 109);
    let _ = cpu.process_opcode(0xC20F);
    assert_eq!(cpu.v[2], 220 & 0x0F);
    assert_eq!(cpu.random.index, 3);
}

#[test]
fn two_interpreters_draw_the_same_random_bytes() {
    let mut a = Cpu::new();
    let mut b = Cpu::new();
    for _ in 0..300 {
        let _ = a.process_opcode(0xC3FF);
        let _ = b.process_opcode(0xC3FF);
        assert_eq!(a.v[3], b.v[3]);
    }
}

#[test]
fn clear_screen() {
    let mut cpu = Cpu::new();
    cpu.display.memory = [true; 2048];
    assert_eq!(cpu.process_opcode(0x00E0), Ok(Outcome::Done));
    assert_eq!(cpu.display.memory, [false; 2048]);
}

#[test]
fn draw_a_glyph() {
    let mut cpu = machine_with(&[0x61, 0x02, 0x62, 0x03, 0xA0, 0x05, 0xD1, 0x25]);
    for _ in 0..3 {
        assert_eq!(cpu.execute_cycle(), Ok(Outcome::Done));
    }
    assert_eq!(cpu.execute_cycle(), Ok(Outcome::Drawn));
    assert_eq!(cpu.v[0xF], 0);
    // the glyph of 1: 0x20 0x60 0x20 0x20 0x70
    let lit: Vec<(usize, usize)> = vec![
        (4, 3), (3, 4), (4, 4), (4, 5), (4, 6), (3, 7), (4, 7), (5, 7),
    ];
    for y in 0..32 {
        for x in 0..64 {
            assert_eq!(cpu.display.memory[x + 64 * y], lit.contains(&(x, y)), "cell {} {}", x, y);
        }
    }
}

#[test]
fn drawing_twice_restores_the_display_and_sets_the_flag() {
    let mut cpu = Cpu::new();
    cpu.reset();
    cpu.display.memory[5 + 64 * 9] = true;
    let before = cpu.display.memory;
    cpu.v[0] = 4;
    cpu.v[1] = 8;
    cpu.i = 10;
    assert_eq!(cpu.process_opcode(0xD015), Ok(Outcome::Drawn));
    assert_ne!(cpu.display.memory, before);
    assert_eq!(cpu.v[0xF], 0);
    assert_eq!(cpu.process_opcode(0xD015), Ok(Outcome::Drawn));
    assert_eq!(cpu.display.memory, before);
    assert_eq!(cpu.v[0xF], 1);
}

#[test]
fn drawing_onto_a_lit_cell_collides() {
    let mut cpu = Cpu::new();
    cpu.reset();
    cpu.display.memory[0] = true;
    cpu.i = 0;
    assert_eq!(cpu.process_opcode(0xD011), Ok(Outcome::Drawn));
    assert_eq!(cpu.v[0xF], 1);
    assert!(!cpu.display.memory[0]);
    assert_eq!(cpu.display.memory[..5], [false, true, true, true, false]);
}

#[test]
fn sprites_are_clipped_at_the_right_and_lower_edge() {
    let mut cpu = Cpu::new();
    cpu.memory[0x300] = 0xFF;
    cpu.memory[0x301] = 0xFF;
    cpu.memory[0x302] = 0xFF;
    cpu.i = 0x300;
    cpu.v[0] = 60;
    cpu.v[1] = 30;
    assert_eq!(cpu.process_opcode(0xD013), Ok(Outcome::Drawn));
    let mut lit = 0;
    for y in 0..32 {
        for x in 0..64 {
            let expected = x >= 60 && y >= 30;
            assert_eq!(cpu.display.memory[x + 64 * y], expected);
            if expected {
                lit += 1;
            }
        }
    }
    assert_eq!(lit, 8);
    assert_eq!(cpu.v[0xF], 0);
}

#[test]
fn sprite_column_is_taken_modulo_64() {
    let mut cpu = Cpu::new();
    cpu.memory[0x300] = 0x80;
    cpu.i = 0x300;
    cpu.v[0] = 64 + 3;
    cpu.v[1] = 2;
    let _ = cpu.process_opcode(0xD011);
    assert!(cpu.display.memory[3 + 64 * 2]);
    assert_eq!(cpu.display.memory.iter().filter(|c| **c).count(), 1);
}

#[test]
fn sprite_row_is_taken_modulo_64_and_rows_below_the_grid_are_dropped() {
    let mut cpu = Cpu::new();
    cpu.memory[0x300] = 0x80;
    cpu.i = 0x300;
    cpu.v[0] = 0;
    cpu.v[1] = 64 + 5;
    let _ = cpu.process_opcode(0xD011);
    assert!(cpu.display.memory[64 * 5]);
    assert_eq!(cpu.display.memory.iter().filter(|c| **c).count(), 1);

    let mut other = Cpu::new();
    other.memory[0x300] = 0xFF;
    other.i = 0x300;
    other.v[1] = 40;
    assert_eq!(other.process_opcode(0xD011), Ok(Outcome::Drawn));
    assert_eq!(other.display.memory, [false; 2048]);
    assert_eq!(other.v[0xF], 0);
}

#[test]
fn draw_of_no_rows_draws_nothing() {
    let mut cpu = Cpu::new();
    cpu.i = 5000;
    cpu.v[0xF] = 1;
    assert_eq!(cpu.process_opcode(0xD010), Ok(Outcome::Drawn));
    assert_eq!(cpu.display.memory, [false; 2048]);
    assert_eq!(cpu.v[0xF], 0);
}

#[test]
fn fetch_beyond_memory_is_a_fault_and_changes_nothing() {
    let mut cpu = Cpu::new();
    cpu.reset();
    cpu.dt = 8;
    cpu.pc = 4095;
    assert_eq!(cpu.execute_cycle(), Err(Fault::FetchOutOfRange));
    assert_eq!(cpu.pc, 4095);
    assert_eq!(cpu.dt, 8);
    cpu.pc = 0xFFFF;
    assert_eq!(cpu.execute_cycle_with_key(Some('1')), Err(Fault::FetchOutOfRange));
    assert_eq!(cpu.pc, 0xFFFF);
    cpu.pc = 4094;
    assert_eq!(cpu.execute_cycle(), Ok(Outcome::Ignored));
    assert_eq!(cpu.pc, 4096);
    assert_eq!(cpu.execute_cycle(), Err(Fault::FetchOutOfRange));
}

#[test]
fn access_beyond_memory_is_a_fault_and_changes_nothing() {
    let mut cpu = machine_with(&[0xFF, 0x55]);
    cpu.v = [3; 16];
    cpu.i = 4081;
    cpu.st = 9;
    let memory = cpu.memory;
    assert_eq!(cpu.execute_cycle(), Err(Fault::AccessOutOfRange));
    assert_eq!(cpu.pc, 512);
    assert_eq!(cpu.st, 9);
    assert_eq!(cpu.memory, memory);

    assert_eq!(cpu.process_opcode(0xFF65), Err(Fault::AccessOutOfRange));
    assert_eq!(cpu.v, [3; 16]);
    cpu.i = 4094;
    assert_eq!(cpu.process_opcode(0xF033), Err(Fault::AccessOutOfRange));
    assert_eq!(cpu.memory, memory);
    assert_eq!(cpu.process_opcode(0xD003), Err(Fault::AccessOutOfRange));
    assert_eq!(cpu.display.memory, [false; 2048]);
    assert_eq!(cpu.process_opcode(0xD002), Ok(Outcome::Drawn));
    cpu.i = 0xFFFF;
    assert_eq!(cpu.process_opcode(0xF065), Err(Fault::AccessOutOfRange));
}

#[test]
fn key_poll_asks_and_then_skips_on_the_key() {
    let mut cpu = machine_with(&[0xE3, 0x9E, 0x00, 0x00, 0xE3, 0x9E]);
    cpu.v[3] = 4;
    cpu.dt = 16;
    assert_eq!(cpu.execute_cycle(), Ok(Outcome::PollKey));
    assert_eq!(cpu.pc, 512);
    assert_eq!(cpu.dt, 16);
    assert_eq!(cpu.execute_cycle_with_key(Some('q')), Ok(Outcome::Done));
    assert_eq!(cpu.pc, 516);
    assert_eq!(cpu.dt, 8);
    assert_eq!(cpu.execute_cycle_with_key(Some('w')), Ok(Outcome::Done));
    assert_eq!(cpu.pc, 518);
    cpu.pc = 516;
    assert_eq!(cpu.execute_cycle_with_key(None), Ok(Outcome::Done));
    assert_eq!(cpu.pc, 518);
    cpu.pc = 516;
    assert_eq!(cpu.execute_cycle_with_key(Some('p')), Ok(Outcome::Done));
    assert_eq!(cpu.pc, 518);
}

#[test]
fn key_poll_skips_when_the_key_is_not_down() {
    let mut cpu = machine_with(&[0xE3, 0xA1]);
    cpu.v[3] = 0xF;
    assert_eq!(cpu.execute_cycle(), Ok(Outcome::PollKey));
    assert_eq!(cpu.pc, 512);
    assert_eq!(cpu.execute_cycle_with_key(Some('v')), Ok(Outcome::Done));
    assert_eq!(cpu.pc, 514);
    cpu.pc = 512;
    assert_eq!(cpu.execute_cycle_with_key(Some('f')), Ok(Outcome::Done));
    assert_eq!(cpu.pc, 516);
    cpu.pc = 512;
    assert_eq!(cpu.execute_cycle_with_key(None), Ok(Outcome::Done));
    assert_eq!(cpu.pc, 516);
}

#[test]
fn key_wait_blocks_until_a_key_of_the_pad_is_seen() {
    let mut cpu = machine_with(&[0xF7, 0x0A]);
    cpu.st = 200;
    assert_eq!(cpu.execute_cycle(), Ok(Outcome::AwaitKey));
    assert_eq!(cpu.execute_cycle(), Ok(Outcome::AwaitKey));
    assert_eq!(cpu.execute_cycle_with_key(None), Ok(Outcome::AwaitKey));
    assert_eq!(cpu.execute_cycle_with_key(Some('p')), Ok(Outcome::AwaitKey));
    assert_eq!(cpu.pc, 512);
    assert_eq!(cpu.st, 200);
    assert_eq!(cpu.v, [0; 16]);
    assert_eq!(cpu.execute_cycle_with_key(Some('c')), Ok(Outcome::Done));
    assert_eq!(cpu.v[7], 0xB);
    assert_eq!(cpu.pc, 514);
    assert_eq!(cpu.st, 100);
}

#[test]
fn process_opcode_hands_key_requests_back() {
    let mut cpu = Cpu::new();
    cpu.pc = 700;
    assert_eq!(cpu.process_opcode(0xE09E), Ok(Outcome::PollKey));
    assert_eq!(cpu.process_opcode(0xE0A1), Ok(Outcome::PollKey));
    assert_eq!(cpu.process_opcode(0xF00A), Ok(Outcome::AwaitKey));
    assert_eq!(cpu.pc, 700);
    assert_eq!(cpu.process_opcode(0xFFFF), Ok(Outcome::Ignored));
    assert_eq!(cpu.pc, 700);
}

#[test]
fn a_cycle_with_a_key_runs_other_instructions_as_usual() {
    let mut cpu = machine_with(&[0x6B, 0x2A]);
    assert_eq!(cpu.execute_cycle_with_key(Some('1')), Ok(Outcome::Done));
    assert_eq!(cpu.v[0xB], 0x2A);
    assert_eq!(cpu.pc, 514);
}

#[test]
fn read_opcode_is_big_endian() {
    let mut memory = [0u8; 4096];
    memory[4094] = 0x12;
    memory[4095] = 0x34;
    assert_eq!(read_opcode(memory, 4094), 0x1234);
    memory[0] = 0xFF;
    memory[1] = 0x01;
    assert_eq!(read_opcode(memory, 0), 0xFF01);
}

#[test]
fn operation_types_name_the_kind_of_instruction() {
    let cases = [
        (0x00E0, "Display"), (0x00EE, "Flow"), (0x1234, "Flow"), (0x2234, "Flow"),
        (0x3123, "Cond"), (0x4123, "Cond"), (0x5120, "Cond"), (0x9120, "Cond"),
        (0x6123, "Const"), (0x7123, "Const"), (0x8120, "Assig"), (0x8121, "BitOp"),
        (0x8122, "BitOp"), (0x8123, "BitOp"), (0x8124, "Math"), (0x8125, "Math"),
        (0x8126, "BitOp"), (0x8127, "Math"), (0x812E, "BitOp"), (0xA123, "MEM"),
        (0xB123, "Flow"), (0xC123, "Rand"), (0xD123, "Display"), (0xE19E, "KeyOp"),
        (0xE1A1, "KeyOp"), (0xF107, "Timer"), (0xF10A, "KeyOp"), (0xF115, "Timer"),
        (0xF118, "Sound"), (0xF11E, "MEM"), (0xF129, "MEM"), (0xF133, "BCD"),
        (0xF155, "MEM"), (0xF165, "MEM"), (0x0000, "Unknown"), (0xFFFF, "Unknown"),
    ];
    for (opcode, name) in cases {
        assert_eq!(decode(opcode).operation_type(), name, "opcode {:04X}", opcode);
    }
}
