use pones_6502::{Bus, Cpu6502, Ram};

/// One access on the bus: a read of a byte, or a write of one.
#[derive(Debug, Clone, Copy, PartialEq, Eq)]
enum Access {
    Read(u16),
    Write(u16, u8),
}

/// Memory that keeps a record of every access.
#[derive(Clone)]
struct Recorder {
    memory: Vec<u8>,
    log: Vec<Access>,
}

impl Recorder {
    fn new(start: u16, program: &[u8]) -> Self {
        let mut memory = vec![0; 65536];
        for (offset, byte) in program.iter().enumerate() {
            memory[(start as usize + offset) % 65536] = *byte;
        }
        Recorder { memory, log: Vec::new() }
    }
}

impl Bus for Recorder {
    fn peek(&self, addr: u16) -> u8 {
        self.memory[addr as usize]
    }

    fn after_read(&self, addr: u16) -> Self {
        let mut next = self.clone();
        next.log.push(Access::Read(addr));
        next
    }

    fn after_write(&self, addr: u16, value: u8) -> Self {
        let mut next = self.clone();
        next.memory[addr as usize] = value;
        next.log.push(Access::Write(addr, value));
        next
    }

    fn read(&mut self, addr: u16) -> u8 {
        self.log.push(Access::Read(addr));
        self.memory[addr as usize]
    }

    fn write(&mut self, addr: u16, value: u8) {
        self.log.push(Access::Write(addr, value));
        self.memory[addr as usize] = value;
    }
}

/// A register at one address that counts the reads it sees, and memory
/// elsewhere.
struct Counter {
    memory: Vec<u8>,
    reads: u8,
}

impl Bus for Counter {
    fn peek(&self, addr: u16) -> u8 {
        if addr == 0x4000 {
            self.reads
        } else {
            self.memory[addr as usize]
        }
    }

    fn after_read(&self, addr: u16) -> Self {
        Counter {
            memory: self.memory.clone(),
            reads: if addr == 0x4000 { self.reads.wrapping_add(1) } else { self.reads },
        }
    }

    fn after_write(&self, addr: u16, value: u8) -> Self {
        let mut memory = self.memory.clone();
        if addr != 0x4000 {
            memory[addr as usize] = value;
        }
        Counter { memory, reads: self.reads }
    }

    fn read(&mut self, addr: u16) -> u8 {
        if addr == 0x4000 {
            let value = self.reads;
            self.reads = self.reads.wrapping_add(1);
            value
        } else {
            self.memory[addr as usize]
        }
    }

    fn write(&mut self, addr: u16, value: u8) {
        if addr != 0x4000 {
            self.memory[addr as usize] = value;
        }
    }
}

fn run(start: u16, program: &[u8]) -> Cpu6502<Recorder> {
    let mut cpu = Cpu6502::new(Recorder::new(start, program));
    cpu.pc = start;
    cpu
}

#[test]
fn immediate_operand_is_read_by_the_resolver_and_by_the_operation() {
    let mut cpu = run(0x0400, &[0xA9, 0x42]);
    cpu.step();
    assert_eq!(cpu.bus.log, vec![Access::Read(0x0400), Access::Read(0x0401), Access::Read(0x0401)]);
    assert_eq!(cpu.reg.a, 0x42);
}

#[test]
fn store_reads_its_operand_and_writes_once() {
    let mut cpu = run(0x0400, &[0x8D, 0x34, 0x12]);
    cpu.reg.a = 0x77;
    cpu.step();
    assert_eq!(
        cpu.bus.log,
        vec![
            Access::Read(0x0400),
            Access::Read(0x0401),
            Access::Read(0x0402),
            Access::Write(0x1234, 0x77),
        ]
    );
}

#[test]
fn modification_reads_then_writes() {
    let mut cpu = run(0x0400, &[0xE6, 0x10]);
    cpu.step();
    assert_eq!(
        cpu.bus.log,
        vec![
            Access::Read(0x0400),
            Access::Read(0x0401),
            Access::Read(0x0010),
            Access::Write(0x0010, 0x01),
        ]
    );
}

#[test]
fn indirect_modes_read_the_pointer_low_byte_first() {
    let mut cpu = run(0x0400, &[0xB1, 0x10]);
    cpu.bus.memory[0x0010] = 0x00;
    cpu.bus.memory[0x0011] = 0x20;
    cpu.reg.y = 5;
    cpu.step();
    assert_eq!(
        cpu.bus.log,
        vec![
            Access::Read(0x0400),
            Access::Read(0x0401),
            Access::Read(0x0010),
            Access::Read(0x0011),
            Access::Read(0x2005),
        ]
    );
}

#[test]
fn call_pushes_high_byte_then_low_byte() {
    let mut cpu = run(0x0400, &[0x20, 0x34, 0x12]);
    cpu.sp = 0xFF;
    cpu.step();
    assert_eq!(
        cpu.bus.log,
        vec![
            Access::Read(0x0400),
            Access::Read(0x0401),
            Access::Read(0x0402),
            Access::Write(0x01FF, 0x04),
            Access::Write(0x01FE, 0x02),
        ]
    );
}

#[test]
fn return_pops_low_byte_then_high_byte() {
    let mut cpu = run(0x0400, &[0x60]);
    cpu.sp = 0xFD;
    cpu.step();
    assert_eq!(
        cpu.bus.log,
        vec![Access::Read(0x0400), Access::Read(0x01FE), Access::Read(0x01FF)]
    );
}

#[test]
fn software_interrupt_pushes_three_bytes_and_reads_the_vector() {
    let mut cpu = run(0x0400, &[0x00]);
    cpu.sp = 0xFF;
    cpu.step();
    assert_eq!(
        cpu.bus.log,
        vec![
            Access::Read(0x0400),
            Access::Write(0x01FF, 0x04),
            Access::Write(0x01FE, 0x02),
            Access::Write(0x01FD, 0x30),
            Access::Read(0xFFFE),
            Access::Read(0xFFFF),
        ]
    );
}

#[test]
fn return_from_interrupt_pops_status_then_low_then_high() {
    let mut cpu = run(0x0400, &[0x40]);
    cpu.sp = 0xFC;
    cpu.step();
    assert_eq!(
        cpu.bus.log,
        vec![
            Access::Read(0x0400),
            Access::Read(0x01FD),
            Access::Read(0x01FE),
            Access::Read(0x01FF),
        ]
    );
}

#[test]
fn reset_reads_only_the_vector() {
    let mut cpu = run(0x0400, &[]);
    cpu.reset();
    assert_eq!(cpu.bus.log, vec![Access::Read(0xFFFC), Access::Read(0xFFFD)]);
}

#[test]
fn masked_interrupt_request_touches_nothing() {
    let mut cpu = run(0x0400, &[]);
    cpu.reg.interrupt_disable = true;
    cpu.irq();
    assert_eq!(cpu.bus.log, vec![]);
}

#[test]
fn hardware_interrupts_push_and_read_their_vector() {
    let mut cpu = run(0x0400, &[]);
    cpu.sp = 0x01;
    cpu.nmi();
    assert_eq!(
        cpu.bus.log,
        vec![
            Access::Write(0x0101, 0x04),
            Access::Write(0x0100, 0x00),
            Access::Write(0x01FF, 0x20),
            Access::Read(0xFFFA),
            Access::Read(0xFFFB),
        ]
    );
}

#[test]
fn undocumented_opcodes_read_their_operand_bytes() {
    let mut cpu = run(0x0400, &[0x04, 0x10, 0x0C, 0x00, 0x20, 0x02, 0x80, 0x55]);
    cpu.step();
    assert_eq!(cpu.pc, 0x0402);
    cpu.step();
    assert_eq!(cpu.pc, 0x0405);
    cpu.step();
    assert_eq!(cpu.pc, 0x0406);
    cpu.step();
    assert_eq!(cpu.pc, 0x0408);
    assert_eq!(
        cpu.bus.log,
        vec![
            Access::Read(0x0400),
            Access::Read(0x0401),
            Access::Read(0x0402),
            Access::Read(0x0403),
            Access::Read(0x0404),
            Access::Read(0x0405),
            Access::Read(0x0406),
            Access::Read(0x0407),
        ]
    );
}

#[test]
fn implied_instructions_read_only_their_opcode() {
    let mut cpu = run(0x0400, &[0xEA, 0x18, 0xAA, 0x0A]);
    for _ in 0..4 {
        cpu.step();
    }
    assert_eq!(
        cpu.bus.log,
        vec![
            Access::Read(0x0400),
            Access::Read(0x0401),
            Access::Read(0x0402),
            Access::Read(0x0403),
        ]
    );
}

#[test]
fn model_of_the_recorder_agrees_with_its_accesses() {
    let start = Recorder::new(0x0400, &[0xE6, 0x10]);
    let mut real = start.clone();
    let value = real.read(0x0400);
    assert_eq!(value, start.peek(0x0400));
    let model = start.after_read(0x0400);
    assert_eq!((&real.memory, &real.log), (&model.memory, &model.log));
    real.write(0x0010, 0x99);
    let model = model.after_write(0x0010, 0x99);
    assert_eq!((&real.memory, &real.log), (&model.memory, &model.log));
    assert_eq!(model.peek(0x0010), 0x99);
}

#[test]
fn a_read_that_changes_the_bus_is_seen_once_per_access() {
    let mut memory = vec![0; 65536];
    memory[0x0400] = 0xAD;
    memory[0x0401] = 0x00;
    memory[0x0402] = 0x40;
    memory[0x0403] = 0xAD;
    memory[0x0404] = 0x00;
    memory[0x0405] = 0x40;
    let mut cpu = Cpu6502::new(Counter { memory, reads: 0 });
    cpu.pc = 0x0400;
    cpu.step();
    assert_eq!(cpu.reg.a, 0);
    assert_eq!(cpu.bus.reads, 1);
    cpu.step();
    assert_eq!(cpu.reg.a, 1);
    assert_eq!(cpu.bus.reads, 2);
}

#[test]
fn ram_reads_what_was_written() {
    let mut ram = Ram::new();
    assert_eq!(ram.read(0x0000), 0);
    assert_eq!(ram.read(0xFFFF), 0);
    ram.write(0xFFFF, 0x12);
    ram.write(0x0000, 0x34);
    assert_eq!(ram.read(0xFFFF), 0x12);
    assert_eq!(ram.read(0x0000), 0x34);
    assert_eq!(ram.read(0x0001), 0);
    assert_eq!(ram.cells[0xFFFF], 0x12);
    ram.cells[0x0001] = 0x56;
    assert_eq!(ram.read(0x0001), 0x56);
}
