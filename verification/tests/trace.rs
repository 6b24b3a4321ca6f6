use nes::cpu::opcode::Opcode;
use nes::cpu::Cpu;
use nes::cpu::CpuFault;
use nes::iomap::IoMap;
use nes::ram::Ram;

/// The opening of the trace that the conformance program leaves on a correct
/// processor: program counter, instruction bytes, instruction, registers,
/// status byte and stack pointer before each instruction, and the cycles so far.
const TRACE: &str = "\
C000  4C F5 C5  JMP $C5F5                       A:00 X:00 Y:00 P:24 SP:FD PPU:  0, 21 CYC:7\n\
C5F5  A2 00     LDX #$00                        A:00 X:00 Y:00 P:24 SP:FD PPU:  0, 30 CYC:10\n\
C5F7  86 00     STX $00 = 00                    A:00 X:00 Y:00 P:26 SP:FD PPU:  0, 36 CYC:12\n\
C5F9  86 10     STX $10 = 00                    A:00 X:00 Y:00 P:26 SP:FD PPU:  0, 45 CYC:15\n\
C5FB  86 11     STX $11 = 00                    A:00 X:00 Y:00 P:26 SP:FD PPU:  0, 54 CYC:18\n\
C5FD  20 2D C7  JSR $C72D                       A:00 X:00 Y:00 P:26 SP:FD PPU:  0, 63 CYC:21\n\
C72D  EA        NOP                             A:00 X:00 Y:00 P:26 SP:FB PPU:  0, 81 CYC:27\n\
C72E  38        SEC                             A:00 X:00 Y:00 P:26 SP:FB PPU:  0, 87 CYC:29\n\
C72F  B0 04     BCS $C735                       A:00 X:00 Y:00 P:27 SP:FB PPU:  0, 93 CYC:31\n\
C735  EA        NOP                             A:00 X:00 Y:00 P:27 SP:FB PPU:  0,102 CYC:34\n\
C736  18        CLC                             A:00 X:00 Y:00 P:27 SP:FB PPU:  0,108 CYC:36\n\
C737  B0 03     BCS $C73C                       A:00 X:00 Y:00 P:26 SP:FB PPU:  0,114 CYC:38\n\
C739  4C 40 C7  JMP $C740                       A:00 X:00 Y:00 P:26 SP:FB PPU:  0,120 CYC:40\n\
C740  EA        NOP                             A:00 X:00 Y:00 P:26 SP:FB PPU:  0,129 CYC:43\n\
C741  38        SEC                             A:00 X:00 Y:00 P:26 SP:FB PPU:  0,135 CYC:45\n\
C742  90 03     BCC $C747                       A:00 X:00 Y:00 P:27 SP:FB PPU:  0,141 CYC:47\n\
C744  4C 4B C7  JMP $C74B                       A:00 X:00 Y:00 P:27 SP:FB PPU:  0,147 CYC:49\n\
C74B  EA        NOP                             A:00 X:00 Y:00 P:27 SP:FB PPU:  0,156 CYC:52\n\
C74C  18        CLC                             A:00 X:00 Y:00 P:27 SP:FB PPU:  0,162 CYC:54\n\
C74D  90 04     BCC $C753                       A:00 X:00 Y:00 P:26 SP:FB PPU:  0,168 CYC:56\n\
C753  EA        NOP                             A:00 X:00 Y:00 P:26 SP:FB PPU:  0,177 CYC:59\n\
C754  A9 00     LDA #$00                        A:00 X:00 Y:00 P:26 SP:FB PPU:  0,183 CYC:61\n\
C756  F0 04     BEQ $C75C                       A:00 X:00 Y:00 P:26 SP:FB PPU:  0,189 CYC:63\n\
C75C  EA        NOP                             A:00 X:00 Y:00 P:26 SP:FB PPU:  0,198 CYC:66\n\
C75D  A9 40     LDA #$40                        A:00 X:00 Y:00 P:26 SP:FB PPU:  0,204 CYC:68\n\
C75F  F0 03     BEQ $C764                       A:40 X:00 Y:00 P:24 SP:FB PPU:  0,210 CYC:70\n\
C761  4C 68 C7  JMP $C768                       A:40 X:00 Y:00 P:24 SP:FB PPU:  0,216 CYC:72\n\
C768  EA        NOP                             A:40 X:00 Y:00 P:24 SP:FB PPU:  0,225 CYC:75\n\
C769  A9 40     LDA #$40                        A:40 X:00 Y:00 P:24 SP:FB PPU:  0,231 CYC:77\n\
C76B  D0 04     BNE $C771                       A:40 X:00 Y:00 P:24 SP:FB PPU:  0,237 CYC:79\n\
C771  EA        NOP                             A:40 X:00 Y:00 P:24 SP:FB PPU:  0,246 CYC:82\n\
C772  A9 00     LDA #$00                        A:40 X:00 Y:00 P:24 SP:FB PPU:  0,252 CYC:84\n\
C774  D0 03     BNE $C779                       A:00 X:00 Y:00 P:26 SP:FB PPU:  0,258 CYC:86\n\
C776  4C 7D C7  JMP $C77D                       A:00 X:00 Y:00 P:26 SP:FB PPU:  0,264 CYC:88\n\
C77D  EA        NOP                             A:00 X:00 Y:00 P:26 SP:FB PPU:  0,273 CYC:91\n\
C77E  A9 FF     LDA #$FF                        A:00 X:00 Y:00 P:26 SP:FB PPU:  0,279 CYC:93\n\
C780  85 01     STA $01 = 00                    A:FF X:00 Y:00 P:A4 SP:FB PPU:  0,285 CYC:95\n\
C782  24 01     BIT $01 = FF                    A:FF X:00 Y:00 P:A4 SP:FB PPU:  0,294 CYC:98\n\
C784  70 04     BVS $C78A                       A:FF X:00 Y:00 P:E4 SP:FB PPU:  0,303 CYC:101\n\
C78A  EA        NOP                             A:FF X:00 Y:00 P:E4 SP:FB PPU:  0,312 CYC:104";

fn hex8(text: &str) -> u8 {
    u8::from_str_radix(text, 16).unwrap()
}

/// The instruction bytes that a line shows, and where they lie.
fn instruction(line: &str) -> (u16, Vec<u8>) {
    let address = u16::from_str_radix(&line[0..4], 16).unwrap();
    let bytes = line[6..14].split_whitespace().map(hex8).collect();
    (address, bytes)
}

fn cycles_so_far(line: &str) -> u32 {
    let at = line.find("CYC:").unwrap();
    line[at + 4..].trim().parse().unwrap()
}

#[test]
fn test() {
    let mut ram = Ram::new();
    for line in TRACE.split('\n') {
        let (address, bytes) = instruction(line);
        ram.load(address, &bytes);
    }
    let mut cpu = Cpu::new(ram);
    cpu.pc = 0xC000;
    let lines: Vec<&str> = TRACE.split('\n').collect();
    assert_eq!(lines.len(), 40);
    for (at, line) in lines.iter().enumerate() {
        println!("{}", line);
        let pc = &line[0..4];
        let name = &line[16..16 + 3];
        let a = &line[48..48 + 4];
        let x = &line[53..53 + 4];
        let y = &line[58..58 + 4];
        let p = &line[63..63 + 4];
        let s = &line[68..68 + 5];
        assert_eq!(pc, format!("{:04X}", cpu.pc));
        assert_eq!(name, Opcode(cpu.peek8(cpu.pc)).name());
        assert_eq!(a, format!("A:{:02X}", cpu.a));
        assert_eq!(x, format!("X:{:02X}", cpu.x));
        assert_eq!(y, format!("Y:{:02X}", cpu.y));
        assert_eq!(p, format!("P:{:02X}", cpu.flags.pack()));
        assert_eq!(s, format!("SP:{:02X}", cpu.s));
        let cycles = cpu.exec().unwrap();
        if at + 1 < lines.len() {
            assert_eq!(cycles, cycles_so_far(lines[at + 1]) - cycles_so_far(line));
        }
    }
    assert_eq!(cpu.pc, 0xC78B);
}

#[test]
fn copy_loop_runs_to_its_end() {
    let program = [
        0xA2, 0x00, // 8000 LDX #$00
        0xBD, 0x00, 0x90, // 8002 LDA $9000,X
        0xF0, 0x07, // 8005 BEQ $800E
        0x9D, 0x00, 0x02, // 8007 STA $0200,X
        0xE8, // 800A INX
        0x4C, 0x02, 0x80, // 800B JMP $8002
        0x86, 0x10, // 800E STX $10
        0x02, // 8010 JAM
    ];
    let mut ram = Ram::new();
    ram.load(0x8000, &program.to_vec());
    ram.load(0x9000, &b"HELLO".to_vec());
    ram.poke8(0xFFFC, 0x00);
    ram.poke8(0xFFFD, 0x80);
    let mut cpu = Cpu::new(ram);
    assert_eq!(cpu.pc, 0x8000);
    let mut total = 0;
    let mut steps = 0;
    let fault = loop {
        match cpu.exec() {
            Ok(cycles) => {
                total += cycles;
                steps += 1;
            }
            Err(fault) => break fault,
        }
        assert!(steps < 1000);
    };
    assert_eq!(fault, CpuFault::Halted);
    assert_eq!(steps, 29);
    assert_eq!(total, 92);
    assert_eq!(cpu.pc, 0x8010);
    assert_eq!(cpu.x, 5);
    assert_eq!(cpu.a, 0);
    assert_eq!(cpu.peek8(0x0010), 5);
    for (k, letter) in b"HELLO".iter().enumerate() {
        assert_eq!(cpu.peek8(0x0200 + k as u16), *letter);
    }
    assert_eq!(cpu.peek8(0x0205), 0);
}

#[test]
fn multiplication_routine_gives_the_product() {
    let program = [
        0x20, 0x10, 0x80, // 8000 JSR $8010
        0x02, // 8003 JAM
    ];
    let routine = [
        0xA9, 0x00, // 8010 LDA #$00
        0xA2, 0x08, // 8012 LDX #$08
        0x46, 0x10, // 8014 LSR $10
        0x90, 0x03, // 8016 BCC $801B
        0x18, // 8018 CLC
        0x65, 0x11, // 8019 ADC $11
        0x6A, // 801B ROR A
        0x66, 0x10, // 801C ROR $10
        0xCA, // 801E DEX
        0xD0, 0xF5, // 801F BNE $8016
        0x85, 0x13, // 8021 STA $13
        0x60, // 8023 RTS
    ];
    for (left, right) in [(13u8, 11u8), (200, 123), (255, 255), (0, 77), (77, 0), (1, 1), (128, 2), (16, 16)] {
        let mut ram = Ram::new();
        ram.load(0x8000, &program.to_vec());
        ram.load(0x8010, &routine.to_vec());
        ram.poke8(0x0010, left);
        ram.poke8(0x0011, right);
        let mut cpu = Cpu::new(ram);
        cpu.pc = 0x8000;
        let mut steps = 0;
        while let Ok(_) = cpu.exec() {
            steps += 1;
            assert!(steps < 1000);
        }
        assert!(cpu.halted);
        assert_eq!(cpu.pc, 0x8003);
        assert_eq!(cpu.s, 0xFD);
        let product = (cpu.peek8(0x0013) as u16) << 8 | cpu.peek8(0x0010) as u16;
        assert_eq!(product, left as u16 * right as u16);
    }
}
