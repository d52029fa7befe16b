use kpasim::cpu::{Cpu, CpuError, RegHalf, RegPair};
use kpasim::data_bus::DataBus;
use kpasim::mbc::MBC1;
use kpasim::op_actions::{action_table, CpuAction};
use kpasim::instruction::instruction_length;

/// A ROM whose program starts at the reset `PC`, `0x0100`.
fn cart(program: &[u8]) -> Box<MBC1> {
    let mut rom = vec![0u8; 0x4000];
    rom[0x0100..0x0100 + program.len()].copy_from_slice(program);
    MBC1::new_boxed(rom)
}

/// Three quiet ticks, then the machine cycle of the fourth.
fn machine_cycle<B: DataBus>(cpu: &mut Cpu, bus: &mut B) -> Result<bool, CpuError> {
    for _ in 0..3 {
        assert_eq!(cpu.t_cycle(bus), Ok(false));
    }
    cpu.t_cycle(bus)
}

#[test]
fn reset_state() {
    let cpu = Cpu::new();
    assert_eq!(cpu.get16(RegPair::PC), 0x0100);
    assert_eq!(cpu.get16(RegPair::SP), 0xFFFE);
    for r in [RegPair::AF, RegPair::BC, RegPair::DE, RegPair::HL] {
        assert_eq!(cpu.get16(r), 0);
    }
    assert_eq!(cpu.t_cycles(), 0);
    assert_eq!(cpu.pending_actions(), 0);
    assert_eq!(cpu.imm(), 0);
    assert!(!cpu.interrupts_enabled());
    assert_eq!(cpu.fault(), None);
}

#[test]
fn acts_on_every_fourth_tick_only() {
    let mut bus = cart(&[0x00, 0x00]);
    let mut cpu = Cpu::new();
    for _ in 0..3 {
        let before = cpu.byte_fields();
        assert_eq!(cpu.t_cycle(&mut *bus), Ok(false));
        assert_eq!(cpu.byte_fields(), before);
    }
    assert_eq!(cpu.t_cycles(), 3);
    assert_eq!(cpu.get16(RegPair::PC), 0x0100);
    assert_eq!(cpu.t_cycle(&mut *bus), Ok(true));
    assert_eq!(cpu.t_cycles(), 4);
    assert_eq!(cpu.get16(RegPair::PC), 0x0101);
    assert_eq!(machine_cycle(&mut cpu, &mut *bus), Ok(true));
    assert_eq!(cpu.get16(RegPair::PC), 0x0102);
}

#[test]
fn nop_takes_one_machine_cycle() {
    let mut bus = cart(&[0x00]);
    let mut cpu = Cpu::new();
    let before = cpu.byte_fields();
    assert_eq!(machine_cycle(&mut cpu, &mut *bus), Ok(true));
    assert_eq!(cpu.get16(RegPair::PC), 0x0101);
    assert_eq!(cpu.pending_actions(), 0);
    let after = cpu.byte_fields();
    assert_eq!(after.pc.get(), 0x0101);
    assert_eq!(
        (after.flags, after.a, after.b, after.c, after.d, after.e, after.h, after.l, after.sp),
        (before.flags, before.a, before.b, before.c, before.d, before.e, before.h, before.l, before.sp)
    );
}

#[test]
fn jp_imm16_jumps_after_three_more_cycles() {
    let mut bus = cart(&[0xC3, 0x34, 0x12]);
    let mut cpu = Cpu::new();
    assert_eq!(machine_cycle(&mut cpu, &mut *bus), Ok(true));
    assert_eq!(cpu.get16(RegPair::PC), 0x0101);
    assert_eq!(cpu.pending_actions(), 3);
    assert_eq!(machine_cycle(&mut cpu, &mut *bus), Ok(true));
    assert_eq!(cpu.get16(RegPair::PC), 0x0102);
    assert_eq!(cpu.imm(), 0x0034);
    assert_eq!(machine_cycle(&mut cpu, &mut *bus), Ok(true));
    assert_eq!(cpu.get16(RegPair::PC), 0x1234);
    assert_eq!(cpu.imm(), 0);
    assert_eq!(cpu.pending_actions(), 1);
    assert_eq!(machine_cycle(&mut cpu, &mut *bus), Ok(true));
    assert_eq!(cpu.get16(RegPair::PC), 0x1234);
    assert_eq!(cpu.pending_actions(), 0);
    assert_eq!(instruction_length(0xC3), 3);
}

#[test]
fn ld_sp_imm16_loads_the_stack_pointer() {
    let mut bus = cart(&[0x31, 0xFE, 0xFF]);
    let mut cpu = Cpu::new();
    cpu.set16(RegPair::SP, 0);
    assert_eq!(machine_cycle(&mut cpu, &mut *bus), Ok(true));
    assert_eq!(machine_cycle(&mut cpu, &mut *bus), Ok(true));
    assert_eq!(cpu.get16(RegPair::SP), 0);
    assert_eq!(machine_cycle(&mut cpu, &mut *bus), Ok(true));
    assert_eq!(cpu.get16(RegPair::SP), 0xFFFE);
    assert_eq!(cpu.get16(RegPair::PC), 0x0103);
    assert_eq!(cpu.imm(), 0);
    assert_eq!(cpu.pending_actions(), 0);
}

#[test]
fn ld_r16_and_r8_immediates() {
    let mut bus = cart(&[0x21, 0x00, 0xC0, 0x3E, 0x42, 0x06, 0x99]);
    let mut cpu = Cpu::new();
    for _ in 0..3 {
        assert_eq!(machine_cycle(&mut cpu, &mut *bus), Ok(true));
    }
    assert_eq!(cpu.get16(RegPair::HL), 0xC000);
    for _ in 0..2 {
        assert_eq!(machine_cycle(&mut cpu, &mut *bus), Ok(true));
    }
    assert_eq!(cpu.get8(RegHalf::A), 0x42);
    for _ in 0..2 {
        assert_eq!(machine_cycle(&mut cpu, &mut *bus), Ok(true));
    }
    assert_eq!(cpu.get8(RegHalf::B), 0x99);
    assert_eq!(cpu.get16(RegPair::PC), 0x0107);
}

#[test]
fn di_and_ei_toggle_the_interrupt_flag() {
    let mut bus = cart(&[0xFB, 0xF3]);
    let mut cpu = Cpu::new();
    assert_eq!(machine_cycle(&mut cpu, &mut *bus), Ok(true));
    assert!(cpu.interrupts_enabled());
    assert_eq!(machine_cycle(&mut cpu, &mut *bus), Ok(true));
    assert!(!cpu.interrupts_enabled());
    assert_eq!(cpu.get16(RegPair::PC), 0x0102);
}

#[test]
fn illegal_byte_stops_with_unsupported_opcode() {
    let mut bus = cart(&[0xDD, 0x00]);
    let mut cpu = Cpu::new();
    cpu.set16(RegPair::BC, 0x1234);
    assert_eq!(machine_cycle(&mut cpu, &mut *bus), Err(CpuError::UnsupportedOpcode(0xDD)));
    assert_eq!(cpu.get16(RegPair::PC), 0x0101);
    assert_eq!(cpu.get16(RegPair::BC), 0x1234);
    assert_eq!(cpu.get16(RegPair::SP), 0xFFFE);
    assert_eq!(cpu.fault(), Some(CpuError::UnsupportedOpcode(0xDD)));
    let t = cpu.t_cycles();
    for _ in 0..8 {
        assert_eq!(cpu.t_cycle(&mut *bus), Err(CpuError::UnsupportedOpcode(0xDD)));
    }
    assert_eq!(cpu.t_cycles(), t);
    assert_eq!(cpu.get16(RegPair::PC), 0x0101);
}

#[test]
fn unmodeled_opcode_stops_with_unsupported_opcode() {
    let mut bus = cart(&[0x76]);
    let mut cpu = Cpu::new();
    assert_eq!(machine_cycle(&mut cpu, &mut *bus), Err(CpuError::UnsupportedOpcode(0x76)));
    assert_eq!(cpu.get16(RegPair::PC), 0x0101);
}

#[test]
fn fetch_count_matches_encoded_length() {
    let mut modeled = 0;
    for op in 0..=u8::MAX {
        if let Some(mut q) = action_table(op) {
            modeled += 1;
            let mut fetches = 0;
            let mut first = true;
            while let Some(a) = q.pop_front() {
                if first {
                    assert!(matches!(a, CpuAction::Internal | CpuAction::SetInterruptEnable(_)));
                    first = false;
                }
                if matches!(
                    a,
                    CpuAction::ImmLow | CpuAction::ImmLowTo(_) | CpuAction::ImmHigh | CpuAction::ImmHighTo(_)
                ) {
                    fetches += 1;
                }
            }
            assert_eq!(fetches + 1, instruction_length(op), "{op:02X}");
        }
    }
    assert_eq!(modeled, 17);
    assert!(action_table(0xDD).is_none());
    assert!(action_table(0x36).is_none());
}

#[test]
fn action_sequences() {
    let mut q = action_table(0xC3).unwrap();
    assert_eq!(q.len(), 4);
    assert_eq!(q.pop_front(), Some(CpuAction::Internal));
    assert_eq!(q.pop_front(), Some(CpuAction::ImmLow));
    assert_eq!(q.pop_front(), Some(CpuAction::ImmHighTo(RegPair::PC)));
    assert_eq!(q.pop_front(), Some(CpuAction::Internal));
    assert_eq!(q.pop_front(), None);
    assert!(q.is_empty());
}

#[test]
fn fetch_pc_reads_and_steps() {
    let mut bus = cart(&[0xAB, 0xCD]);
    let mut cpu = Cpu::new();
    assert_eq!(cpu.fetch_pc(&mut *bus), 0xAB);
    assert_eq!(cpu.fetch_pc(&mut *bus), 0xCD);
    assert_eq!(cpu.get16(RegPair::PC), 0x0102);
}

#[test]
fn mbc1_reads_bank0_and_open_bus() {
    let mut rom = vec![0u8; 0x8000];
    rom[0x0000] = 0x11;
    rom[0x3FFF] = 0x22;
    rom[0x4000] = 0x33;
    let mut bus = MBC1::new_boxed(rom);
    assert_eq!(bus.read(0x0000), 0x11);
    assert_eq!(bus.read(0x3FFF), 0x22);
    assert_eq!(bus.read(0x4000), 0xFF);
    bus.write(0x0000, 0x99);
    assert_eq!(bus.read(0x0000), 0x11);
    let short = MBC1::new_boxed(vec![0x44; 0x10]);
    assert_eq!(short.read(0x000F), 0x44);
    assert_eq!(short.read(0x0010), 0xFF);
}

/// A flat 64 KiB memory that remembers what was written.
struct Ram {
    bytes: Vec<u8>,
}

impl DataBus for Ram {
    fn read_spec(&self, addr: u16) -> u8 {
        self.bytes[addr as usize]
    }
    fn write_spec(&self, addr: u16, byte: u8) -> Self {
        let mut bytes = self.bytes.clone();
        bytes[addr as usize] = byte;
        Ram { bytes }
    }
    fn read(&self, addr: u16) -> u8 {
        self.bytes[addr as usize]
    }
    fn write(&mut self, addr: u16, byte: u8) {
        self.bytes[addr as usize] = byte;
    }
}

fn ram(program: &[u8]) -> Ram {
    let mut bytes = vec![0u8; 0x10000];
    bytes[0x0100..0x0100 + program.len()].copy_from_slice(program);
    Ram { bytes }
}

#[test]
fn ldh_and_ld_abs_write_a() {
    let mut bus = ram(&[0x3E, 0x5A, 0xE0, 0x80, 0xEA, 0x00, 0xC0]);
    let mut cpu = Cpu::new();
    for _ in 0..2 {
        assert_eq!(machine_cycle(&mut cpu, &mut bus), Ok(true));
    }
    for _ in 0..3 {
        assert_eq!(machine_cycle(&mut cpu, &mut bus), Ok(true));
    }
    assert_eq!(bus.bytes[0xFF80], 0x5A);
    assert_eq!(cpu.imm(), 0);
    for _ in 0..4 {
        assert_eq!(machine_cycle(&mut cpu, &mut bus), Ok(true));
    }
    assert_eq!(bus.bytes[0xC000], 0x5A);
    assert_eq!(cpu.imm(), 0);
    assert_eq!(cpu.get16(RegPair::PC), 0x0107);
}
