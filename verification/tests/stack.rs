use nes::cpu::flags::Flags;
use nes::cpu::instruction::Instruction;
use nes::cpu::Cpu;
use nes::iomap::IoMap;
use nes::ram::Ram;

fn fresh() -> Cpu<Ram> {
    Cpu::new(Ram::new())
}

#[test]
fn push_writes_at_the_stack_pointer_and_moves_it_down() {
    let mut cpu = fresh();
    assert_eq!(cpu.s, 0xFD);
    cpu.push8(0xAB);
    assert_eq!(cpu.s, 0xFC);
    assert_eq!(cpu.peek8(0x01FD), 0xAB);
    cpu.push8(0xCD);
    assert_eq!(cpu.s, 0xFB);
    assert_eq!(cpu.peek8(0x01FC), 0xCD);
    assert_eq!(cpu.pop8(), 0xCD);
    assert_eq!(cpu.s, 0xFC);
    assert_eq!(cpu.pop8(), 0xAB);
    assert_eq!(cpu.s, 0xFD);
}

#[test]
fn push16_puts_the_high_byte_first() {
    let mut cpu = fresh();
    cpu.push16(0x1234);
    assert_eq!(cpu.s, 0xFB);
    assert_eq!(cpu.peek8(0x01FD), 0x12);
    assert_eq!(cpu.peek8(0x01FC), 0x34);
    assert_eq!(cpu.pop16(), 0x1234);
    assert_eq!(cpu.s, 0xFD);
}

#[test]
fn pops_return_pushes_in_reverse_order() {
    for start in [0xFDu8, 0xFF, 0x00, 0x7F, 0x03] {
        for count in [0usize, 1, 2, 17, 255, 256] {
            let mut cpu = fresh();
            cpu.s = start;
            let items: Vec<u8> = (0..count).map(|k| (k * 7 + 3) as u8).collect();
            for (k, item) in items.iter().enumerate() {
                cpu.push8(*item);
                assert_eq!(cpu.s, start.wrapping_sub((k + 1) as u8));
            }
            for (k, item) in items.iter().rev().enumerate() {
                assert_eq!(cpu.pop8(), *item);
                assert_eq!(cpu.s, start.wrapping_sub((count - k - 1) as u8));
            }
            assert_eq!(cpu.s, start);
        }
    }
}

#[test]
fn interleaved_pushes_and_pops_behave_as_a_stack() {
    let mut cpu = fresh();
    let mut model: Vec<u8> = Vec::new();
    let mut seed: u32 = 12345;
    for _ in 0..5000 {
        seed = seed.wrapping_mul(1103515245).wrapping_add(12345);
        let push = (seed >> 16) & 3 != 0;
        if model.len() < 256 && (push || model.is_empty()) {
            let byte = (seed >> 8) as u8;
            cpu.push8(byte);
            model.push(byte);
        } else {
            assert_eq!(cpu.pop8(), model.pop().unwrap());
        }
        assert_eq!(cpu.s, 0xFDu8.wrapping_sub(model.len() as u8));
    }
}

#[test]
fn the_stack_pointer_wraps_within_the_stack_page() {
    let mut cpu = fresh();
    cpu.s = 0x00;
    cpu.push8(0x11);
    assert_eq!(cpu.s, 0xFF);
    assert_eq!(cpu.peek8(0x0100), 0x11);
    cpu.push8(0x22);
    assert_eq!(cpu.peek8(0x01FF), 0x22);
    assert_eq!(cpu.s, 0xFE);
    assert_eq!(cpu.pop8(), 0x22);
    assert_eq!(cpu.pop8(), 0x11);
    assert_eq!(cpu.s, 0x00);
    // a word pushed across the wrap comes back
    cpu.s = 0x00;
    cpu.push16(0xBEEF);
    assert_eq!(cpu.peek8(0x0100), 0xBE);
    assert_eq!(cpu.peek8(0x01FF), 0xEF);
    assert_eq!(cpu.pop16(), 0xBEEF);
    // the 257th push overwrites the first
    let mut cpu = fresh();
    cpu.push8(0x01);
    for _ in 0..255 {
        cpu.push8(0x00);
    }
    cpu.push8(0x02);
    assert_eq!(cpu.peek8(0x01FD), 0x02);
}

#[test]
fn pha_and_pla() {
    let mut cpu = fresh();
    cpu.a = 0x80;
    cpu.pha();
    assert_eq!(cpu.s, 0xFC);
    assert_eq!(cpu.peek8(0x01FD), 0x80);
    cpu.a = 0x00;
    cpu.flags = Flags { n: false, v: false, d: false, i: false, z: true, c: false };
    cpu.pla();
    assert_eq!(cpu.a, 0x80);
    assert_eq!(cpu.s, 0xFD);
    assert!(cpu.flags.n && !cpu.flags.z);
    cpu.push8(0x00);
    cpu.pla();
    assert_eq!(cpu.a, 0x00);
    assert!(!cpu.flags.n && cpu.flags.z);
}

#[test]
fn php_pushes_break_and_plp_drops_it() {
    let mut cpu = fresh();
    cpu.flags = Flags { n: true, v: false, d: false, i: true, z: false, c: true };
    cpu.php();
    assert_eq!(cpu.peek8(0x01FD), 0x80 | 0x20 | 0x10 | 0x04 | 0x01);
    assert_eq!(cpu.flags.pack(), 0xA5);
    cpu.flags = Flags::new();
    cpu.plp();
    assert_eq!(cpu.flags, Flags { n: true, v: false, d: false, i: true, z: false, c: true });
    assert_eq!(cpu.flags.pack(), 0xA5);
    cpu.push8(0xFF);
    cpu.plp();
    assert_eq!(cpu.flags.pack(), 0xEF);
    cpu.push8(0x00);
    cpu.plp();
    assert_eq!(cpu.flags.pack(), 0x20);
    cpu.push8(0x30);
    cpu.plp();
    assert_eq!(cpu.flags.pack(), 0x20);
}
