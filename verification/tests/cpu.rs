use chip8::cpu::{CpuError, CPU, SPRITES};
use chip8::io::{MemoryError, Read};
use chip8::opcode::{Arithmetic, Assign, Device, Flow, Instruction, Transfer};

fn run(cpu: &mut CPU, opcodes: &[u16]) {
    for opcode in opcodes {
        assert_eq!(cpu.execute_instruction(*opcode), Ok(()));
    }
}

fn v(cpu: &CPU, x: u8) -> u8 {
    cpu.v().read(x).unwrap()
}

fn registers(cpu: &CPU) -> Vec<u8> {
    cpu.v().read_range(0, 16).unwrap().to_vec()
}

fn memory(cpu: &CPU) -> Vec<u8> {
    let mut bytes = cpu.ram().read_range(0, 0x0FFF).unwrap().to_vec();
    bytes.push(cpu.ram().read(0x0FFF).unwrap());
    bytes
}

fn lit(cpu: &CPU) -> Vec<(u8, u8)> {
    let mut lit = Vec::new();
    for row in 0..32u8 {
        for column in 0..64u8 {
            if cpu.screen().pixel(column, row) {
                lit.push((column, row));
            }
        }
    }
    lit
}

#[test]
fn new_machine_is_switched_on() {
    let cpu = CPU::new();
    assert_eq!(cpu.program_counter(), 0x200);
    assert!(!cpu.is_paused());
    assert_eq!(cpu.clock_speed(), 500);
    assert_eq!(registers(&cpu), vec![0u8; 16]);
    assert_eq!(cpu.i().read(), 0);
    assert_eq!(cpu.stack().depth(), 0);
    assert_eq!(cpu.delay_timer().read(), 0);
    assert_eq!(cpu.sound_timer().read(), 0);
    assert_eq!(cpu.keyboard().wait_for_any_key_press(), None);
    assert!(lit(&cpu).is_empty());
    let bytes = memory(&cpu);
    assert_eq!(&bytes[..80], &SPRITES[..]);
    assert!(bytes[80..].iter().all(|byte| *byte == 0));
}

#[test]
fn font_has_five_rows_for_each_digit() {
    let cpu = CPU::new();
    assert_eq!(cpu.ram().read_range(0, 5), Ok(&[0xF0u8, 0x90, 0x90, 0x90, 0xF0][..]));
    assert_eq!(cpu.ram().read_range(5, 5), Ok(&[0x20u8, 0x60, 0x20, 0x20, 0x70][..]));
    assert_eq!(cpu.ram().read_range(75, 5), Ok(&[0xF0u8, 0x80, 0xF0, 0x80, 0x80][..]));
}

#[test]
fn rom_is_loaded_at_0x200() {
    let mut cpu = CPU::new();
    assert_eq!(cpu.load_rom(&[0x12, 0x34, 0x56]), Ok(()));
    assert_eq!(cpu.ram().read_range(0x1FF, 5), Ok(&[0u8, 0x12, 0x34, 0x56, 0][..]));
    assert_eq!(cpu.ram().read_range(0, 5), Ok(&[0xF0u8, 0x90, 0x90, 0x90, 0xF0][..]));
    assert_eq!(cpu.program_counter(), 0x200);
}

#[test]
fn rom_may_fill_the_memory_and_no_more() {
    let mut cpu = CPU::new();
    assert_eq!(cpu.load_rom(&vec![0xEEu8; 0xE00]), Ok(()));
    assert_eq!(cpu.ram().read(0x200), Ok(0xEE));
    assert_eq!(cpu.ram().read(0xFFF), Ok(0xEE));
    let mut other = CPU::new();
    assert_eq!(other.load_rom(&vec![0xEEu8; 0xE01]), Err(MemoryError::OutOfBounds));
    assert_eq!(other.ram().read(0x200), Ok(0));
    assert_eq!(other.ram().read(0xFFF), Ok(0));
    assert_eq!(other.load_rom(&[]), Ok(()));
}

#[test]
fn load_then_add_byte() {
    let mut cpu = CPU::new();
    run(&mut cpu, &[0x6A05, 0x7A0B]);
    assert_eq!(v(&cpu, 0xA), 0x10);
    assert_eq!(v(&cpu, 0xF), 0);
    assert_eq!(cpu.program_counter(), 0x204);
}

#[test]
fn add_byte_wraps_without_flag() {
    let mut cpu = CPU::new();
    run(&mut cpu, &[0x6F07, 0x63FF, 0x7302]);
    assert_eq!(v(&cpu, 3), 0x01);
    assert_eq!(v(&cpu, 0xF), 0x07);
}

#[test]
fn add_sets_carry() {
    let mut cpu = CPU::new();
    run(&mut cpu, &[0x60FF, 0x6101, 0x8014]);
    assert_eq!(v(&cpu, 0), 0x00);
    assert_eq!(v(&cpu, 0xF), 1);
    run(&mut cpu, &[0x6010, 0x6120, 0x8014]);
    assert_eq!(v(&cpu, 0), 0x30);
    assert_eq!(v(&cpu, 0xF), 0);
}

#[test]
fn subtract_clears_flag_on_borrow() {
    let mut cpu = CPU::new();
    run(&mut cpu, &[0x6001, 0x6102, 0x8015]);
    assert_eq!(v(&cpu, 0), 0xFF);
    assert_eq!(v(&cpu, 0xF), 0);
    run(&mut cpu, &[0x6005, 0x6105, 0x8015]);
    assert_eq!(v(&cpu, 0), 0x00);
    assert_eq!(v(&cpu, 0xF), 1);
    run(&mut cpu, &[0x6009, 0x6104, 0x8015]);
    assert_eq!(v(&cpu, 0), 0x05);
    assert_eq!(v(&cpu, 0xF), 1);
}

#[test]
fn subtract_from_takes_x_from_y() {
    let mut cpu = CPU::new();
    run(&mut cpu, &[0x6002, 0x6109, 0x8017]);
    assert_eq!(v(&cpu, 0), 0x07);
    assert_eq!(v(&cpu, 0xF), 1);
    run(&mut cpu, &[0x6009, 0x6102, 0x8017]);
    assert_eq!(v(&cpu, 0), 0xF9);
    assert_eq!(v(&cpu, 0xF), 0);
    run(&mut cpu, &[0x6004, 0x6104, 0x8017]);
    assert_eq!(v(&cpu, 0), 0x00);
    assert_eq!(v(&cpu, 0xF), 1);
}

#[test]
fn shifts_put_the_lost_bit_in_vf() {
    let mut cpu = CPU::new();
    run(&mut cpu, &[0x6305, 0x8306]);
    assert_eq!(v(&cpu, 3), 0x02);
    assert_eq!(v(&cpu, 0xF), 1);
    run(&mut cpu, &[0x6304, 0x8306]);
    assert_eq!(v(&cpu, 3), 0x02);
    assert_eq!(v(&cpu, 0xF), 0);
    run(&mut cpu, &[0x6381, 0x830E]);
    assert_eq!(v(&cpu, 3), 0x02);
    assert_eq!(v(&cpu, 0xF), 1);
    run(&mut cpu, &[0x6341, 0x830E]);
    assert_eq!(v(&cpu, 3), 0x82);
    assert_eq!(v(&cpu, 0xF), 0);
}

#[test]
fn shifts_do_not_read_y() {
    let mut cpu = CPU::new();
    run(&mut cpu, &[0x6108, 0x62FF, 0x8126]);
    assert_eq!(v(&cpu, 1), 0x04);
    assert_eq!(v(&cpu, 2), 0xFF);
    run(&mut cpu, &[0x812E]);
    assert_eq!(v(&cpu, 1), 0x08);
}

#[test]
fn result_stays_where_x_is_the_flag_register() {
    let mut cpu = CPU::new();
    run(&mut cpu, &[0x6FFF, 0x6102, 0x8F14]);
    assert_eq!(v(&cpu, 0xF), 0x01);
    run(&mut cpu, &[0x6F10, 0x6120, 0x8F14]);
    assert_eq!(v(&cpu, 0xF), 0x30);
    run(&mut cpu, &[0x6F07, 0x8F06]);
    assert_eq!(v(&cpu, 0xF), 0x03);
    run(&mut cpu, &[0x6F81, 0x8F0E]);
    assert_eq!(v(&cpu, 0xF), 0x02);
}

#[test]
fn logic_leaves_the_flag_register_alone() {
    let mut cpu = CPU::new();
    run(&mut cpu, &[0x6F55, 0x600C, 0x610A, 0x8011]);
    assert_eq!(v(&cpu, 0), 0x0E);
    run(&mut cpu, &[0x600C, 0x8012]);
    assert_eq!(v(&cpu, 0), 0x08);
    run(&mut cpu, &[0x600C, 0x8013]);
    assert_eq!(v(&cpu, 0), 0x06);
    run(&mut cpu, &[0x8010]);
    assert_eq!(v(&cpu, 0), 0x0A);
    assert_eq!(v(&cpu, 1), 0x0A);
    assert_eq!(v(&cpu, 0xF), 0x55);
}

#[test]
fn jumps_set_the_program_counter() {
    let mut cpu = CPU::new();
    run(&mut cpu, &[0x1ABC]);
    assert_eq!(cpu.program_counter(), 0xABC);
    run(&mut cpu, &[0x0345]);
    assert_eq!(cpu.program_counter(), 0x345);
    run(&mut cpu, &[0x60FF, 0xBFFF]);
    assert_eq!(cpu.program_counter(), 0x10FE);
    run(&mut cpu, &[0x6004, 0xB300]);
    assert_eq!(cpu.program_counter(), 0x304);
}

#[test]
fn call_and_return() {
    let mut cpu = CPU::new();
    run(&mut cpu, &[0x2400]);
    assert_eq!(cpu.program_counter(), 0x400);
    assert_eq!(cpu.stack().depth(), 1);
    run(&mut cpu, &[0x2600]);
    assert_eq!(cpu.program_counter(), 0x600);
    assert_eq!(cpu.stack().depth(), 2);
    run(&mut cpu, &[0x00EE]);
    assert_eq!(cpu.program_counter(), 0x402);
    run(&mut cpu, &[0x00EE]);
    assert_eq!(cpu.program_counter(), 0x202);
    assert_eq!(cpu.stack().depth(), 0);
}

#[test]
fn return_without_call_is_an_underflow() {
    let mut cpu = CPU::new();
    assert_eq!(
        cpu.execute_instruction(0x00EE),
        Err(CpuError::Memory(MemoryError::StackUnderflow))
    );
    assert_eq!(cpu.program_counter(), 0x200);
}

#[test]
fn seventeenth_call_is_an_overflow() {
    let mut cpu = CPU::new();
    for _ in 0..16 {
        assert_eq!(cpu.execute_instruction(0x2300), Ok(()));
    }
    assert_eq!(cpu.stack().depth(), 16);
    assert_eq!(
        cpu.execute_instruction(0x2400),
        Err(CpuError::Memory(MemoryError::StackOverflow))
    );
    assert_eq!(cpu.program_counter(), 0x300);
    assert_eq!(cpu.stack().depth(), 16);
}

#[test]
fn skips_on_bytes() {
    let mut cpu = CPU::new();
    run(&mut cpu, &[0x6A42]);
    assert_eq!(cpu.program_counter(), 0x202);
    run(&mut cpu, &[0x3A42]);
    assert_eq!(cpu.program_counter(), 0x206);
    run(&mut cpu, &[0x3A43]);
    assert_eq!(cpu.program_counter(), 0x208);
    run(&mut cpu, &[0x4A42]);
    assert_eq!(cpu.program_counter(), 0x20A);
    run(&mut cpu, &[0x4A43]);
    assert_eq!(cpu.program_counter(), 0x20E);
}

#[test]
fn skips_on_registers() {
    let mut cpu = CPU::new();
    run(&mut cpu, &[0x6A42, 0x6B42, 0x6C01]);
    assert_eq!(cpu.program_counter(), 0x206);
    run(&mut cpu, &[0x5AB0]);
    assert_eq!(cpu.program_counter(), 0x20A);
    run(&mut cpu, &[0x5AC0]);
    assert_eq!(cpu.program_counter(), 0x20C);
    run(&mut cpu, &[0x9AB0]);
    assert_eq!(cpu.program_counter(), 0x20E);
    run(&mut cpu, &[0x9AC0]);
    assert_eq!(cpu.program_counter(), 0x212);
    run(&mut cpu, &[0x5AB1]);
    assert_eq!(cpu.program_counter(), 0x216);
}

#[test]
fn skips_on_keys() {
    let mut cpu = CPU::new();
    run(&mut cpu, &[0x6107]);
    assert_eq!(cpu.program_counter(), 0x202);
    run(&mut cpu, &[0xE19E]);
    assert_eq!(cpu.program_counter(), 0x204);
    run(&mut cpu, &[0xE1A1]);
    assert_eq!(cpu.program_counter(), 0x208);
    cpu.set_key(Some(0x7));
    run(&mut cpu, &[0xE19E]);
    assert_eq!(cpu.program_counter(), 0x20C);
    run(&mut cpu, &[0xE1A1]);
    assert_eq!(cpu.program_counter(), 0x20E);
    cpu.set_key(Some(0x8));
    run(&mut cpu, &[0xE19E]);
    assert_eq!(cpu.program_counter(), 0x210);
    cpu.set_key(Some(0x0));
    run(&mut cpu, &[0x6100, 0xE19E]);
    assert_eq!(cpu.program_counter(), 0x216);
}

#[test]
fn index_register_instructions() {
    let mut cpu = CPU::new();
    run(&mut cpu, &[0xA123]);
    assert_eq!(cpu.i().read(), 0x123);
    run(&mut cpu, &[0x6010, 0xF01E]);
    assert_eq!(cpu.i().read(), 0x133);
    run(&mut cpu, &[0x600A, 0xF029]);
    assert_eq!(cpu.i().read(), 50);
    run(&mut cpu, &[0x60FF, 0xF029]);
    assert_eq!(cpu.i().read(), 1275);
}

#[test]
fn index_register_wraps_at_sixteen_bits() {
    let mut cpu = CPU::new();
    run(&mut cpu, &[0x60FF, 0xAFFF]);
    for _ in 0..240 {
        run(&mut cpu, &[0xF01E]);
    }
    assert_eq!(cpu.i().read(), 0x0FFF + 240 * 0xFF);
    run(&mut cpu, &[0x60F0, 0xF01E]);
    assert_eq!(cpu.i().read(), 0xFFFF);
    run(&mut cpu, &[0x6002, 0xF01E]);
    assert_eq!(cpu.i().read(), 0x0001);
}

#[test]
fn decimal_digits_go_to_memory() {
    let mut cpu = CPU::new();
    run(&mut cpu, &[0x63FE, 0xA300, 0xF333]);
    assert_eq!(cpu.ram().read_range(0x2FF, 5), Ok(&[0u8, 2, 5, 4, 0][..]));
    run(&mut cpu, &[0x6307, 0xF333]);
    assert_eq!(cpu.ram().read_range(0x300, 3), Ok(&[0u8, 0, 7][..]));
    run(&mut cpu, &[0x6364, 0xF333]);
    assert_eq!(cpu.ram().read_range(0x300, 3), Ok(&[1u8, 0, 0][..]));
    assert_eq!(cpu.i().read(), 0x300);
}

#[test]
fn decimal_digits_need_three_bytes_of_memory() {
    let mut cpu = CPU::new();
    run(&mut cpu, &[0x637B, 0xAFFD, 0xF333]);
    assert_eq!(cpu.ram().read_range(0xFFD, 3), Ok(&[1u8, 2, 3][..]));
    run(&mut cpu, &[0xAFFE]);
    let pc = cpu.program_counter();
    assert_eq!(
        cpu.execute_instruction(0xF333),
        Err(CpuError::Memory(MemoryError::OutOfBounds))
    );
    assert_eq!(cpu.ram().read_range(0xFFD, 3), Ok(&[1u8, 2, 3][..]));
    assert_eq!(cpu.program_counter(), pc);
}

#[test]
fn registers_go_to_memory_up_to_x() {
    let mut cpu = CPU::new();
    run(&mut cpu, &[0x6011, 0x6122, 0x6233, 0x6344, 0xA400, 0xF255]);
    assert_eq!(cpu.ram().read_range(0x3FF, 5), Ok(&[0u8, 0x11, 0x22, 0x33, 0][..]));
    assert_eq!(cpu.i().read(), 0x400);
    run(&mut cpu, &[0xA500, 0xF055]);
    assert_eq!(cpu.ram().read_range(0x500, 2), Ok(&[0x11u8, 0][..]));
}

#[test]
fn memory_goes_to_registers_up_to_x() {
    let mut cpu = CPU::new();
    assert_eq!(cpu.load_rom(&[9, 8, 7, 6, 5]), Ok(()));
    run(&mut cpu, &[0x63AA, 0xA200, 0xF265]);
    assert_eq!(&registers(&cpu)[..5], &[9, 8, 7, 0xAA, 0]);
    assert_eq!(cpu.i().read(), 0x200);
    run(&mut cpu, &[0xA000, 0xFF65]);
    assert_eq!(&registers(&cpu)[..], &SPRITES[..16]);
}

#[test]
fn block_transfers_need_memory() {
    let mut cpu = CPU::new();
    run(&mut cpu, &[0x6011, 0x6122, 0xAFFE, 0xF155]);
    assert_eq!(cpu.ram().read_range(0xFFE, 2), Ok(&[0x11u8, 0x22][..]));
    let pc = cpu.program_counter();
    assert_eq!(
        cpu.execute_instruction(0xF255),
        Err(CpuError::Memory(MemoryError::OutOfBounds))
    );
    assert_eq!(
        cpu.execute_instruction(0xF265),
        Err(CpuError::Memory(MemoryError::OutOfBounds))
    );
    assert_eq!(cpu.program_counter(), pc);
    assert_eq!(&registers(&cpu)[..3], &[0x11, 0x22, 0]);
    run(&mut cpu, &[0xF165]);
    assert_eq!(cpu.program_counter(), pc + 2);
}

#[test]
fn random_byte_is_masked() {
    let mut cpu = CPU::new();
    for _ in 0..200 {
        run(&mut cpu, &[0xC00F, 0xC1F0, 0xC200, 0xC381]);
        assert_eq!(v(&cpu, 0) & 0xF0, 0);
        assert_eq!(v(&cpu, 1) & 0x0F, 0);
        assert_eq!(v(&cpu, 2), 0);
        assert_eq!(v(&cpu, 3) & 0x7E, 0);
    }
    assert_eq!(cpu.program_counter(), 0x200 + 200 * 8);
}

#[test]
fn random_byte_varies() {
    let mut cpu = CPU::new();
    let mut seen = [false; 256];
    for _ in 0..4000 {
        run(&mut cpu, &[0xC0FF, 0x1200]);
        seen[v(&cpu, 0) as usize] = true;
    }
    assert!(seen.iter().filter(|s| **s).count() > 200);
}

#[test]
fn given_byte_is_masked() {
    let mut cpu = CPU::new();
    let random = Instruction::Assign(Assign::Random { x: 4, kk: 0x3C });
    assert_eq!(cpu.execute(random, 0xFF), Ok(()));
    assert_eq!(v(&cpu, 4), 0x3C);
    assert_eq!(cpu.execute(random, 0xA5), Ok(()));
    assert_eq!(v(&cpu, 4), 0x24);
    assert_eq!(cpu.execute(random, 0x00), Ok(()));
    assert_eq!(v(&cpu, 4), 0x00);
    assert_eq!(cpu.program_counter(), 0x206);
}

#[test]
fn draw_glyph_and_collide() {
    let mut cpu = CPU::new();
    run(&mut cpu, &[0x6001, 0xF029, 0x610A, 0x6205, 0xD125]);
    assert_eq!(
        lit(&cpu),
        vec![(12, 5), (11, 6), (12, 6), (12, 7), (12, 8), (11, 9), (12, 9), (13, 9)]
    );
    assert_eq!(v(&cpu, 0xF), 0);
    run(&mut cpu, &[0x6F09, 0xD125]);
    assert!(lit(&cpu).is_empty());
    assert_eq!(v(&cpu, 0xF), 1);
    run(&mut cpu, &[0xD125]);
    assert_eq!(v(&cpu, 0xF), 0);
    assert_eq!(lit(&cpu).len(), 8);
}

#[test]
fn draw_wraps_onto_the_left_edge() {
    let mut cpu = CPU::new();
    assert_eq!(cpu.load_rom(&[0xFF]), Ok(()));
    run(&mut cpu, &[0xA200, 0x603C, 0x6100, 0xD011]);
    assert_eq!(
        lit(&cpu),
        vec![(0, 0), (1, 0), (2, 0), (3, 0), (60, 0), (61, 0), (62, 0), (63, 0)]
    );
    assert_eq!(v(&cpu, 0xF), 0);
    run(&mut cpu, &[0xD011]);
    assert!(lit(&cpu).is_empty());
    assert_eq!(v(&cpu, 0xF), 1);
}

#[test]
fn draw_of_no_rows_clears_the_flag() {
    let mut cpu = CPU::new();
    run(&mut cpu, &[0x6F01, 0xAFFF, 0xD120]);
    assert_eq!(v(&cpu, 0xF), 0);
    assert!(lit(&cpu).is_empty());
    run(&mut cpu, &[0xAFFF, 0x6F01, 0xD121]);
    assert_eq!(v(&cpu, 0xF), 0);
}

#[test]
fn draw_needs_its_rows_in_memory() {
    let mut cpu = CPU::new();
    run(&mut cpu, &[0x6F01, 0xAFFF]);
    let pc = cpu.program_counter();
    assert_eq!(
        cpu.execute_instruction(0xD122),
        Err(CpuError::Memory(MemoryError::OutOfBounds))
    );
    assert_eq!(v(&cpu, 0xF), 1);
    assert_eq!(cpu.program_counter(), pc);
}

#[test]
fn draw_reads_coordinates_before_it_sets_the_flag() {
    let mut cpu = CPU::new();
    run(&mut cpu, &[0xA000, 0x6F02, 0x6003, 0xDF01]);
    assert_eq!(lit(&cpu), vec![(2, 3), (3, 3), (4, 3), (5, 3)]);
    assert_eq!(v(&cpu, 0xF), 0);
}

#[test]
fn clear_screen_instruction() {
    let mut cpu = CPU::new();
    run(&mut cpu, &[0xA000, 0xD005]);
    assert!(!lit(&cpu).is_empty());
    run(&mut cpu, &[0x00E0]);
    assert!(lit(&cpu).is_empty());
    assert_eq!(cpu.program_counter(), 0x206);
}

#[test]
fn timers_are_set_and_read() {
    let mut cpu = CPU::new();
    run(&mut cpu, &[0x603C, 0xF015, 0x6105, 0xF118]);
    assert_eq!(cpu.delay_timer().read(), 60);
    assert_eq!(cpu.sound_timer().read(), 5);
    assert!(cpu.tick_delay_timer());
    assert!(cpu.tick_delay_timer());
    assert!(cpu.tick_sound_timer());
    run(&mut cpu, &[0xF207]);
    assert_eq!(v(&cpu, 2), 58);
    assert_eq!(cpu.sound_timer().read(), 4);
    for _ in 0..58 {
        assert!(cpu.tick_delay_timer());
    }
    assert!(!cpu.tick_delay_timer());
    run(&mut cpu, &[0xF207]);
    assert_eq!(v(&cpu, 2), 0);
    for _ in 0..4 {
        assert!(cpu.tick_sound_timer());
    }
    assert!(!cpu.tick_sound_timer());
    assert_eq!(cpu.sound_timer().read(), 0);
}

#[test]
fn wait_key_blocks_until_a_key_press() {
    let mut cpu = CPU::new();
    assert_eq!(cpu.load_rom(&[0xF30A, 0x6A05].map(|op: u16| op.to_be_bytes()).concat()), Ok(()));
    assert_eq!(cpu.cycle(), Ok(()));
    assert!(cpu.is_paused());
    assert_eq!(cpu.program_counter(), 0x202);
    for _ in 0..10 {
        assert_eq!(cpu.cycle(), Ok(()));
        assert_eq!(cpu.execute_instruction(0x6A05), Ok(()));
        assert_eq!(cpu.execute_instruction(0x00F1), Ok(()));
        cpu.set_key(None);
    }
    assert!(cpu.is_paused());
    assert_eq!(cpu.program_counter(), 0x202);
    assert_eq!(registers(&cpu), vec![0u8; 16]);
    cpu.set_key(Some(0xB));
    assert!(!cpu.is_paused());
    assert_eq!(v(&cpu, 3), 0xB);
    assert_eq!(cpu.program_counter(), 0x202);
    assert_eq!(cpu.cycle(), Ok(()));
    assert_eq!(v(&cpu, 0xA), 5);
    assert_eq!(cpu.program_counter(), 0x204);
}

#[test]
fn wait_key_takes_a_key_that_is_down() {
    let mut cpu = CPU::new();
    cpu.set_key(Some(0x0));
    run(&mut cpu, &[0x65FF, 0xF50A]);
    assert!(!cpu.is_paused());
    assert_eq!(v(&cpu, 5), 0x0);
    assert_eq!(cpu.program_counter(), 0x204);
}

#[test]
fn timers_tick_while_the_engine_waits() {
    let mut cpu = CPU::new();
    run(&mut cpu, &[0x6003, 0xF015, 0xF10A]);
    assert!(cpu.is_paused());
    assert!(cpu.tick_delay_timer());
    assert_eq!(cpu.delay_timer().read(), 2);
    assert!(cpu.is_paused());
    cpu.set_key(Some(1));
    assert!(!cpu.is_paused());
    assert_eq!(v(&cpu, 1), 1);
}

#[test]
fn key_reports_do_not_touch_a_running_engine() {
    let mut cpu = CPU::new();
    run(&mut cpu, &[0x6A05]);
    cpu.set_key(Some(0x4));
    assert_eq!(cpu.keyboard().wait_for_any_key_press(), Some(0x4));
    assert!(cpu.keyboard().is_key_pressed(0x4));
    assert_eq!(v(&cpu, 0xA), 5);
    assert_eq!(v(&cpu, 0), 0);
    assert_eq!(cpu.program_counter(), 0x202);
    cpu.set_key(None);
    assert_eq!(cpu.keyboard().wait_for_any_key_press(), None);
}

#[test]
fn unknown_opcode_is_reported_and_changes_nothing() {
    let mut cpu = CPU::new();
    run(&mut cpu, &[0x6A05, 0xA123, 0x2300]);
    let before = (registers(&cpu), memory(&cpu), cpu.program_counter(), cpu.i().read());
    for opcode in [0x00F1u16, 0x0000, 0x8008, 0xE100, 0xF10F, 0xFFFF] {
        assert_eq!(cpu.execute_instruction(opcode), Err(CpuError::InvalidOpcode(opcode)));
        let after = (registers(&cpu), memory(&cpu), cpu.program_counter(), cpu.i().read());
        assert_eq!(after, before);
        assert_eq!(cpu.stack().depth(), 1);
    }
    assert_eq!(cpu.execute_instruction(0x5001), Ok(()));
    assert_eq!(cpu.program_counter(), 0x304);
}

#[test]
fn cycle_fetches_big_endian_and_advances() {
    let mut cpu = CPU::new();
    assert_eq!(cpu.load_rom(&[0x6A, 0x05, 0x7A, 0x0B, 0x12, 0x00]), Ok(()));
    assert_eq!(cpu.cycle(), Ok(()));
    assert_eq!(v(&cpu, 0xA), 0x05);
    assert_eq!(cpu.program_counter(), 0x202);
    assert_eq!(cpu.cycle(), Ok(()));
    assert_eq!(v(&cpu, 0xA), 0x10);
    assert_eq!(cpu.program_counter(), 0x204);
    assert_eq!(cpu.cycle(), Ok(()));
    assert_eq!(cpu.program_counter(), 0x200);
    assert_eq!(cpu.cycle(), Ok(()));
    assert_eq!(v(&cpu, 0xA), 0x05);
}

#[test]
fn cycle_halts_on_empty_memory() {
    let mut cpu = CPU::new();
    assert_eq!(cpu.cycle(), Err(CpuError::InvalidOpcode(0x0000)));
    assert_eq!(cpu.program_counter(), 0x200);
    assert_eq!(cpu.cycle(), Err(CpuError::InvalidOpcode(0x0000)));
}

#[test]
fn cycle_halts_on_an_unknown_opcode_in_a_program() {
    let mut cpu = CPU::new();
    assert_eq!(cpu.load_rom(&[0x6A, 0x05, 0x00, 0xF1]), Ok(()));
    assert_eq!(cpu.cycle(), Ok(()));
    assert_eq!(cpu.cycle(), Err(CpuError::InvalidOpcode(0x00F1)));
    assert_eq!(cpu.program_counter(), 0x202);
    assert_eq!(v(&cpu, 0xA), 5);
}

#[test]
fn fetch_beyond_memory_is_out_of_bounds() {
    let mut cpu = CPU::new();
    run(&mut cpu, &[0x1FFF]);
    assert_eq!(cpu.cycle(), Err(CpuError::Memory(MemoryError::OutOfBounds)));
    assert_eq!(cpu.program_counter(), 0xFFF);
    run(&mut cpu, &[0x60FF, 0xBFFF]);
    assert_eq!(cpu.cycle(), Err(CpuError::Memory(MemoryError::OutOfBounds)));
    assert_eq!(cpu.program_counter(), 0x10FE);
}

#[test]
fn last_instruction_of_memory_can_run() {
    let mut cpu = CPU::new();
    let mut rom = vec![0u8; 0xE00];
    rom[0xDFE] = 0x6B;
    rom[0xDFF] = 0x77;
    assert_eq!(cpu.load_rom(&rom), Ok(()));
    run(&mut cpu, &[0x1FFE]);
    assert_eq!(cpu.cycle(), Ok(()));
    assert_eq!(v(&cpu, 0xB), 0x77);
    assert_eq!(cpu.program_counter(), 0x1000);
    assert_eq!(cpu.cycle(), Err(CpuError::Memory(MemoryError::OutOfBounds)));
}

#[test]
fn instruction_with_unknown_register_is_out_of_bounds() {
    let mut cpu = CPU::new();
    let out = Err(CpuError::Memory(MemoryError::OutOfBounds));
    assert_eq!(cpu.execute(Instruction::Assign(Assign::Load { x: 16, kk: 1 }), 0), out);
    assert_eq!(cpu.execute(Instruction::Arithmetic(Arithmetic::Add { x: 0, y: 16 }), 0), out);
    assert_eq!(cpu.execute(Instruction::Flow(Flow::SkipIfEqual { x: 200, kk: 0 }), 0), out);
    assert_eq!(cpu.execute(Instruction::Device(Device::WaitKey { x: 16 }), 0), out);
    assert_eq!(cpu.execute(Instruction::Transfer(Transfer::StoreRegisters { x: 16 }), 0), out);
    assert_eq!(cpu.execute(Instruction::Transfer(Transfer::LoadRegisters { x: 254 }), 0), out);
    assert_eq!(cpu.program_counter(), 0x200);
    assert_eq!(registers(&cpu), vec![0u8; 16]);
    assert!(!cpu.is_paused());
}

#[test]
fn block_of_256_registers_is_refused_as_invalid_range() {
    let mut cpu = CPU::new();
    let invalid = Err(CpuError::Memory(MemoryError::InvalidRange));
    assert_eq!(cpu.execute(Instruction::Transfer(Transfer::StoreRegisters { x: 255 }), 0), invalid);
    assert_eq!(cpu.execute(Instruction::Transfer(Transfer::LoadRegisters { x: 255 }), 0), invalid);
    assert_eq!(cpu.program_counter(), 0x200);
}

#[test]
fn program_counter_wraps_at_sixteen_bits() {
    let mut cpu = CPU::new();
    assert_eq!(cpu.execute(Instruction::Flow(Flow::Jump { addr: 0xFFFF }), 0), Ok(()));
    assert_eq!(cpu.program_counter(), 0xFFFF);
    assert_eq!(cpu.execute(Instruction::Assign(Assign::Load { x: 0, kk: 1 }), 0), Ok(()));
    assert_eq!(cpu.program_counter(), 0x0001);
    assert_eq!(cpu.execute(Instruction::Flow(Flow::Jump { addr: 0xFFFD }), 0), Ok(()));
    assert_eq!(cpu.execute(Instruction::Flow(Flow::SkipIfEqual { x: 0, kk: 1 }), 0), Ok(()));
    assert_eq!(cpu.program_counter(), 0x0001);
}

#[test]
fn clock_speed_and_rest() {
    let mut cpu = CPU::new();
    assert_eq!(cpu.clock_speed(), 500);
    assert_eq!(cpu.clock_wait(0), Some(2_000_000));
    assert_eq!(cpu.clock_wait(500_000), Some(1_500_000));
    assert_eq!(cpu.clock_wait(2_000_000), Some(0));
    assert_eq!(cpu.clock_wait(2_000_001), None);
    assert_eq!(cpu.clock_wait(u64::MAX), None);
    assert!(cpu.set_clock_speed(700));
    assert_eq!(cpu.clock_speed(), 700);
    assert_eq!(cpu.clock_wait(0), Some(1_428_571));
    assert!(!cpu.set_clock_speed(0));
    assert_eq!(cpu.clock_speed(), 700);
    assert!(cpu.set_clock_speed(u32::MAX));
    assert_eq!(cpu.clock_wait(0), Some(0));
    assert_eq!(cpu.clock_wait(1), None);
}

#[test]
fn engine_does_not_change_the_clock_speed() {
    let mut cpu = CPU::new();
    assert!(cpu.set_clock_speed(60));
    run(&mut cpu, &[0x6A05, 0x7A0B, 0x2300, 0x00EE, 0xA123, 0xD005, 0x00E0]);
    cpu.set_key(Some(1));
    cpu.tick_delay_timer();
    assert_eq!(cpu.clock_speed(), 60);
}
