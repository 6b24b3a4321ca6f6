use nes::cpu::Cpu;
use nes::iomap::IoMap;
use nes::ram::Ram;
use nes::ram::ADDRESS_SPACE;

/// A bus that remembers every write and every read, in order.
struct Recorder {
    ram: Ram,
    writes: Vec<(u16, u8)>,
}

impl IoMap for Recorder {
    type Model = ();

    fn view(&self) {}

    fn read(_model: (), _address: u16) -> u8 {
        unreachable!()
    }

    fn written(_model: (), _address: u16, _byte: u8) {}

    fn peek8(&self, address: u16) -> u8 {
        self.ram.peek8(address)
    }

    fn poke8(&mut self, address: u16, byte: u8) {
        self.writes.push((address, byte));
        self.ram.poke8(address, byte);
    }
}

fn recorder(origin: u16, program: &[u8]) -> Cpu<Recorder> {
    let mut ram = Ram::new();
    ram.load(origin, &program.to_vec());
    let mut cpu = Cpu::new(Recorder { ram, writes: Vec::new() });
    cpu.pc = origin;
    cpu
}

#[test]
fn new_ram_is_zero_everywhere() {
    let ram = Ram::new();
    assert_eq!(ADDRESS_SPACE, 0x10000);
    for address in 0..=0xFFFFu16 {
        assert_eq!(ram.peek8(address), 0);
    }
}

#[test]
fn ram_keeps_what_is_written() {
    let mut ram = Ram::new();
    ram.poke8(0x0000, 0x11);
    ram.poke8(0xFFFF, 0x22);
    ram.poke8(0x0100, 0x33);
    assert_eq!(ram.peek8(0x0000), 0x11);
    assert_eq!(ram.peek8(0xFFFF), 0x22);
    assert_eq!(ram.peek8(0x0100), 0x33);
    assert_eq!(ram.peek8(0x0101), 0x00);
    ram.poke8(0x0100, 0x44);
    assert_eq!(ram.peek8(0x0100), 0x44);
    assert_eq!(ram.peek16(0x00FF), 0x4400);
    assert_eq!(ram.peek16(0xFFFF), 0x1122);
}

#[test]
fn load_copies_an_image_and_drops_what_does_not_fit() {
    let mut ram = Ram::new();
    ram.poke8(0x7FFF, 0xAA);
    ram.poke8(0x8003, 0xBB);
    ram.load(0x8000, &vec![1, 2, 3]);
    assert_eq!(ram.peek8(0x7FFF), 0xAA);
    assert_eq!(ram.peek8(0x8000), 1);
    assert_eq!(ram.peek8(0x8001), 2);
    assert_eq!(ram.peek8(0x8002), 3);
    assert_eq!(ram.peek8(0x8003), 0xBB);
    ram.load(0xFFFE, &vec![7, 8, 9, 10]);
    assert_eq!(ram.peek8(0xFFFE), 7);
    assert_eq!(ram.peek8(0xFFFF), 8);
    assert_eq!(ram.peek8(0x0000), 0);
    assert_eq!(ram.peek8(0x0001), 0);
    ram.load(0x1234, &Vec::new());
    assert_eq!(ram.peek8(0x1234), 0);
    let whole: Vec<u8> = (0..0x10000u32).map(|k| (k % 251) as u8).collect();
    ram.load(0x0000, &whole);
    for address in [0x0000u16, 0x00FA, 0x00FB, 0x8000, 0xFFFF] {
        assert_eq!(ram.peek8(address), (address as u32 % 251) as u8);
    }
}

#[test]
fn the_processor_reads_and_writes_through_its_bus() {
    let mut cpu = Cpu::new(Ram::new());
    cpu.poke8(0x1234, 0x56);
    assert_eq!(cpu.bus.peek8(0x1234), 0x56);
    cpu.bus.poke8(0x1235, 0x78);
    assert_eq!(cpu.peek8(0x1235), 0x78);
    assert_eq!(cpu.peek16(0x1234), 0x7856);
}

#[test]
fn read_modify_write_writes_twice() {
    // INC $10
    let mut cpu = recorder(0x8000, &[0xE6, 0x10]);
    cpu.bus.ram.poke8(0x0010, 0x7F);
    assert_eq!(cpu.exec(), Ok(5));
    assert_eq!(cpu.bus.writes, vec![(0x0010, 0x7F), (0x0010, 0x80)]);
    assert_eq!(cpu.peek8(0x0010), 0x80);
    assert_eq!(cpu.flags.pack(), 0x24 | 0x80);
}

#[test]
fn combined_operations_write_twice_and_keep_the_shifted_byte() {
    // SLO $0300 ; RRA $10,X ; DCP ($20),Y ; ISB $0301
    let mut cpu = recorder(
        0x8000,
        &[0x0F, 0x00, 0x03, 0x77, 0x10, 0xD3, 0x20, 0xEF, 0x01, 0x03],
    );
    cpu.bus.ram.poke8(0x0300, 0x81);
    cpu.bus.ram.poke8(0x0012, 0x03);
    cpu.bus.ram.poke8(0x0020, 0xFF);
    cpu.bus.ram.poke8(0x0021, 0x04);
    cpu.bus.ram.poke8(0x0500, 0x10);
    cpu.bus.ram.poke8(0x0301, 0xFF);
    cpu.a = 0x01;
    cpu.x = 0x02;
    cpu.y = 0x01;
    assert_eq!(cpu.exec(), Ok(6));
    assert_eq!(cpu.a, 0x03);
    assert!(cpu.flags.c);
    assert_eq!(cpu.exec(), Ok(6));
    assert_eq!(cpu.a, 0x03 + 0x81 + 1);
    assert_eq!(cpu.exec(), Ok(8));
    assert_eq!(cpu.a, 0x85);
    assert!(cpu.flags.c && !cpu.flags.z);
    cpu.flags.c = true;
    assert_eq!(cpu.exec(), Ok(6));
    assert_eq!(cpu.a, 0x85);
    assert_eq!(
        cpu.bus.writes,
        vec![
            (0x0300, 0x81),
            (0x0300, 0x02),
            (0x0012, 0x03),
            (0x0012, 0x81),
            (0x0500, 0x10),
            (0x0500, 0x0F),
            (0x0301, 0xFF),
            (0x0301, 0x00),
        ]
    );
}

#[test]
fn a_store_writes_once_and_a_load_never() {
    // STA $0200 ; LDA $0200 ; BIT $0200 ; CMP $0200 ; NOP $0200 ; ASL A
    let mut cpu = recorder(
        0x8000,
        &[0x8D, 0x00, 0x02, 0xAD, 0x00, 0x02, 0x2C, 0x00, 0x02, 0xCD, 0x00, 0x02, 0x0C, 0x00, 0x02, 0x0A],
    );
    cpu.a = 0x42;
    for cycles in [4u32, 4, 4, 4, 4, 2] {
        assert_eq!(cpu.exec(), Ok(cycles));
    }
    assert_eq!(cpu.bus.writes, vec![(0x0200, 0x42)]);
    assert_eq!(cpu.a, 0x84);
}

#[test]
fn pushes_write_to_the_stack_page_only() {
    // PHA ; PHP ; JSR $9000 ; BRK
    let mut cpu = recorder(0x8000, &[0x48, 0x08, 0x20, 0x00, 0x90]);
    cpu.a = 0x99;
    assert_eq!(cpu.exec(), Ok(3));
    assert_eq!(cpu.exec(), Ok(3));
    assert_eq!(cpu.exec(), Ok(6));
    assert_eq!(cpu.exec(), Ok(7));
    assert_eq!(
        cpu.bus.writes,
        vec![
            (0x01FD, 0x99),
            (0x01FC, 0x34),
            (0x01FB, 0x80),
            (0x01FA, 0x04),
            (0x01F9, 0x90),
            (0x01F8, 0x02),
            (0x01F7, 0x34),
        ]
    );
    assert_eq!(cpu.s, 0xF6);
}

#[test]
fn faults_write_nothing() {
    let mut cpu = recorder(0x8000, &[0x9F, 0x00, 0x02]);
    assert!(cpu.exec().is_err());
    cpu.pc = 0x8003;
    cpu.bus.ram.poke8(0x8003, 0x02);
    assert!(cpu.exec().is_err());
    assert!(cpu.bus.writes.is_empty());
}
