//! The CPU: its register file and the machine-cycle scheduler.

use vstd::prelude::*;

use crate::data_bus::DataBus;
use crate::op_actions::{action_table, lemma_table_shape, op_actions, ActionQueue, CpuAction};
use crate::reg16::Reg16;
use crate::reg8::Reg8;
use crate::reg_flags::RegFlags;

verus! {

/// A 16-bit register, or register pair.
#[derive(Debug, Clone, Copy, PartialEq, Eq, Structural, PartialOrd, Ord, Hash)]
pub enum RegPair {
    AF,
    BC,
    DE,
    HL,
    SP,
    PC,
}

/// An 8-bit half of `AF`, `BC`, `DE` or `HL`.
#[derive(Debug, Clone, Copy, PartialEq, Eq, Structural, PartialOrd, Ord, Hash)]
pub enum RegHalf {
    A,
    F,
    B,
    C,
    D,
    E,
    H,
    L,
}

impl RegHalf {
    /// The pair that this byte is half of.
    #[verifier::when_used_as_spec(pair)]
    pub fn pair_of(self) -> (r: RegPair)
        ensures
            r == self.pair(),
    {
        match self {
            RegHalf::A | RegHalf::F => RegPair::AF,
            RegHalf::B | RegHalf::C => RegPair::BC,
            RegHalf::D | RegHalf::E => RegPair::DE,
            RegHalf::H | RegHalf::L => RegPair::HL,
        }
    }

    /// The pair that this byte is half of.
    pub open spec fn pair(self) -> RegPair {
        match self {
            RegHalf::A | RegHalf::F => RegPair::AF,
            RegHalf::B | RegHalf::C => RegPair::BC,
            RegHalf::D | RegHalf::E => RegPair::DE,
            RegHalf::H | RegHalf::L => RegPair::HL,
        }
    }

    /// Whether this is the high byte of its pair.
    pub open spec fn is_high(self) -> bool {
        self is A || self is B || self is D || self is H
    }

    /// The other half of the same pair.
    pub open spec fn other(self) -> RegHalf {
        match self {
            RegHalf::A => RegHalf::F,
            RegHalf::F => RegHalf::A,
            RegHalf::B => RegHalf::C,
            RegHalf::C => RegHalf::B,
            RegHalf::D => RegHalf::E,
            RegHalf::E => RegHalf::D,
            RegHalf::H => RegHalf::L,
            RegHalf::L => RegHalf::H,
        }
    }
}

/// The high byte of `w`.
pub open spec fn hi(w: u16) -> u8 {
    (w >> 8u32) as u8
}

/// The low byte of `w`.
pub open spec fn lo(w: u16) -> u8 {
    (w & 0xFF) as u8
}

/// `w` with its high byte replaced by `b`.
pub open spec fn with_hi(w: u16, b: u8) -> u16 {
    (w & 0x00FF) | ((b as u16) << 8u32)
}

/// `w` with its low byte replaced by `b`.
pub open spec fn with_lo(w: u16, b: u8) -> u16 {
    (w & 0xFF00) | (b as u16)
}

/// `w + 1`, wrapping from `0xFFFF` to `0`.
pub open spec fn inc16(w: u16) -> u16 {
    ((w + 1) % 0x1_0000) as u16
}

/// The address `0xFF00 + offset` of the high page.
pub open spec fn high_page(offset: u8) -> u16 {
    (0xFF00 + offset) as u16
}

/// Why the CPU stopped.
#[derive(Debug, Clone, Copy, PartialEq, Eq, Structural)]
pub enum CpuError {
    /// The opcode byte that was fetched has no modeled execution.
    UnsupportedOpcode(u8),
}

/// The state of a [`Cpu`], as a mathematical value.
pub struct CpuState {
    pub af: u16,
    pub bc: u16,
    pub de: u16,
    pub hl: u16,
    pub sp: u16,
    pub pc: u16,
    /// The clock ticks counted since reset, wrapping.
    pub t_cycles: u32,
    /// The actions still to run of the current instruction.
    pub queue: Seq<CpuAction>,
    /// The immediate buffer.
    pub imm: u16,
    /// The interrupt master enable flag.
    pub ime: bool,
    /// The unsupported opcode that stopped the CPU, if one did.
    pub fault: Option<u8>,
}

impl CpuState {
    /// Bits 3–0 of `F` are clear.
    pub open spec fn wf(self) -> bool {
        self.af & 0x0F == 0
    }

    pub open spec fn get16(self, r: RegPair) -> u16 {
        match r {
            RegPair::AF => self.af,
            RegPair::BC => self.bc,
            RegPair::DE => self.de,
            RegPair::HL => self.hl,
            RegPair::SP => self.sp,
            RegPair::PC => self.pc,
        }
    }

    /// The state with `v` written to `r`; into `AF` without bits 3–0.
    pub open spec fn set16(self, r: RegPair, v: u16) -> CpuState {
        match r {
            RegPair::AF => CpuState { af: v & 0xFFF0, ..self },
            RegPair::BC => CpuState { bc: v, ..self },
            RegPair::DE => CpuState { de: v, ..self },
            RegPair::HL => CpuState { hl: v, ..self },
            RegPair::SP => CpuState { sp: v, ..self },
            RegPair::PC => CpuState { pc: v, ..self },
        }
    }

    pub open spec fn get8(self, h: RegHalf) -> u8 {
        let w = self.get16(h.pair());
        if h.is_high() {
            hi(w)
        } else {
            lo(w)
        }
    }

    /// The state with `v` written to `h`; into `F` without bits 3–0.
    pub open spec fn set8(self, h: RegHalf, v: u8) -> CpuState {
        let w = self.get16(h.pair());
        if h.is_high() {
            self.set16(h.pair(), with_hi(w, v))
        } else if h is F {
            self.set16(h.pair(), with_lo(w, v & 0xF0))
        } else {
            self.set16(h.pair(), with_lo(w, v))
        }
    }
}

/// The state after reset.
pub open spec fn reset_state() -> CpuState {
    CpuState {
        af: 0,
        bc: 0,
        de: 0,
        hl: 0,
        sp: 0xFFFE,
        pc: 0x0100,
        t_cycles: 0,
        queue: Seq::empty(),
        imm: 0,
        ime: false,
        fault: None,
    }
}

/// `s` after the operand fetch: `PC` steps past the byte it read.
pub open spec fn after_fetch(s: CpuState) -> CpuState {
    CpuState { pc: inc16(s.pc), ..s }
}

/// The state and bus after running the action `a`.
pub open spec fn run_action<B: DataBus>(s: CpuState, bus: B, a: CpuAction) -> (CpuState, B) {
    let byte = bus.read_spec(s.pc);
    match a {
        CpuAction::Internal => (s, bus),
        CpuAction::SetInterruptEnable(on) => (CpuState { ime: on, ..s }, bus),
        CpuAction::ImmLow => (CpuState { imm: with_lo(s.imm, byte), ..after_fetch(s) }, bus),
        CpuAction::ImmLowTo(h) => (CpuState { imm: 0, ..after_fetch(s).set8(h, byte) }, bus),
        CpuAction::ImmHigh => (CpuState { imm: with_hi(s.imm, byte), ..after_fetch(s) }, bus),
        CpuAction::ImmHighTo(r) => (
            CpuState { imm: 0, ..after_fetch(s).set16(r, with_hi(s.imm, byte)) },
            bus,
        ),
        CpuAction::WriteRegToImm16(h) => (
            CpuState { imm: 0, ..s },
            bus.write_spec(s.imm, s.get8(h)),
        ),
        CpuAction::WriteRegToHalfAddr(h) => (
            CpuState { imm: 0, ..s },
            bus.write_spec(high_page(lo(s.imm)), s.get8(h)),
        ),
    }
}

/// One machine cycle: with no action queued, fetch and decode an opcode,
/// queue its actions and run the first; else run the next queued action.
/// An opcode with no modeled execution stops the CPU instead.
pub open spec fn machine_cycle<B: DataBus>(s: CpuState, bus: B) -> (
    CpuState,
    B,
    Result<bool, CpuError>,
) {
    if s.queue.len() == 0 {
        let op = bus.read_spec(s.pc);
        match op_actions(op) {
            None => (
                CpuState { fault: Some(op), ..after_fetch(s) },
                bus,
                Err(CpuError::UnsupportedOpcode(op)),
            ),
            Some(actions) => {
                let (s1, b1) = run_action(
                    CpuState { queue: actions.drop_first(), ..after_fetch(s) },
                    bus,
                    actions[0],
                );
                (s1, b1, Ok(true))
            },
        }
    } else {
        let (s1, b1) = run_action(CpuState { queue: s.queue.drop_first(), ..s }, bus, s.queue[0]);
        (s1, b1, Ok(true))
    }
}

/// One clock tick. A stopped CPU stays as it is. Otherwise the counter
/// steps, and every fourth tick runs a machine cycle.
pub open spec fn tick<B: DataBus>(s: CpuState, bus: B) -> (CpuState, B, Result<bool, CpuError>) {
    match s.fault {
        Some(op) => (s, bus, Err(CpuError::UnsupportedOpcode(op))),
        None => {
            let s1 = CpuState { t_cycles: ((s.t_cycles + 1) % 0x1_0000_0000) as u32, ..s };
            if s1.t_cycles % 4 != 0 {
                (s1, bus, Ok(false))
            } else {
                machine_cycle(s1, bus)
            }
        },
    }
}

/// How the high and low bytes of a word relate to the word.
proof fn lemma_word_bytes(w: u16, b: u8)
    ensures
        w == 256 * hi(w) + lo(w),
        hi(with_hi(w, b)) == b,
        lo(with_hi(w, b)) == lo(w),
        lo(with_lo(w, b)) == b,
        hi(with_lo(w, b)) == hi(w),
        hi(w & 0xFFF0) == hi(w),
        lo(w & 0xFFF0) == lo(w) & 0xF0,
        (w & 0xFFF0) & 0x0F == 0,
        with_hi(w, b) & 0x0F == w & 0x0F,
        with_lo(w, b & 0xF0) & 0x0F == 0,
        lo(w) & 0x0F == w & 0x0F,
{
    assert(w == 256 * ((w >> 8u32) as u8) + ((w & 0xFF) as u8)) by (bit_vector);
    assert(((((w & 0x00FF) | ((b as u16) << 8u32)) >> 8u32) as u8) == b) by (bit_vector);
    assert((((w & 0x00FF) | ((b as u16) << 8u32)) & 0xFF) as u8 == (w & 0xFF) as u8) by (bit_vector);
    assert((((w & 0xFF00) | (b as u16)) & 0xFF) as u8 == b) by (bit_vector);
    assert((((w & 0xFF00) | (b as u16)) >> 8u32) as u8 == (w >> 8u32) as u8) by (bit_vector);
    assert(((w & 0xFFF0) >> 8u32) as u8 == (w >> 8u32) as u8) by (bit_vector);
    assert(((w & 0xFFF0) & 0xFF) as u8 == ((w & 0xFF) as u8) & 0xF0) by (bit_vector);
    assert((w & 0xFFF0) & 0x0F == 0) by (bit_vector);
    assert(((w & 0x00FF) | ((b as u16) << 8u32)) & 0x0F == w & 0x0F) by (bit_vector);
    assert(((w & 0xFF00) | ((b & 0xF0) as u16)) & 0x0F == 0) by (bit_vector);
    assert(((w & 0xFF) as u8) & 0x0F == w & 0x0F) by (bit_vector);
}

/// Writes to a pair or a half keep bits 3–0 of `F` clear.
proof fn lemma_writes_keep_wf(s: CpuState, r: RegPair, w: u16, h: RegHalf, b: u8)
    requires
        s.wf(),
    ensures
        s.set16(r, w).wf(),
        s.set8(h, b).wf(),
{
    let v = s.get16(h.pair());
    lemma_word_bytes(w, b);
    lemma_word_bytes(with_hi(v, b), b);
    lemma_word_bytes(with_lo(v, b & 0xF0), b);
    lemma_word_bytes(with_lo(v, b), b);
}

/// Each action keeps bits 3–0 of `F` clear.
proof fn lemma_action_keeps_wf<B: DataBus>(s: CpuState, bus: B, a: CpuAction)
    requires
        s.wf(),
    ensures
        run_action(s, bus, a).0.wf(),
{
    let byte = bus.read_spec(s.pc);
    match a {
        CpuAction::ImmLowTo(h) => lemma_writes_keep_wf(after_fetch(s), RegPair::BC, 0, h, byte),
        CpuAction::ImmHighTo(r) => lemma_writes_keep_wf(
            after_fetch(s),
            r,
            with_hi(s.imm, byte),
            RegHalf::B,
            0,
        ),
        _ => {},
    }
}

/// Each of `AF`, `BC`, `DE` and `HL` is one 16-bit store seen as two bytes:
/// the pair reads as 256 times its high half plus its low half; writing the
/// pair writes its high byte to the high half and its low byte to the low
/// half; writing a half changes that byte of the pair and keeps the other.
/// `F` holds only bits 7–4 of what is written to it.
pub proof fn lemma_register_aliasing(s: CpuState, h: RegHalf, w: u16, b: u8)
    requires
        s.wf(),
    ensures
        s.get16(h.pair()) == if h.is_high() {
            256 * s.get8(h) + s.get8(h.other())
        } else {
            256 * s.get8(h.other()) + s.get8(h)
        },
        s.set16(h.pair(), w).get8(h) == if h.is_high() {
            hi(w)
        } else if h is F {
            lo(w) & 0xF0
        } else {
            lo(w)
        },
        s.set8(h, b).get8(h) == if h is F {
            b & 0xF0
        } else {
            b
        },
        s.set8(h, b).get8(h.other()) == s.get8(h.other()),
        forall|r: RegPair| r != h.pair() ==> #[trigger] s.set8(h, b).get16(r) == s.get16(r),
{
    let v = s.get16(h.pair());
    lemma_word_bytes(v, b);
    lemma_word_bytes(v, b & 0xF0);
    lemma_word_bytes(w, b);
    lemma_word_bytes(with_hi(v, b), b);
    lemma_word_bytes(with_lo(v, b & 0xF0), b & 0xF0);
    lemma_word_bytes(with_lo(v, b), b);
    assert((b & 0xF0) & 0xF0 == b & 0xF0) by (bit_vector);
    let l = lo(v);
    assert(l & 0x0F == 0 ==> l & 0xF0 == l) by (bit_vector);
}

/// Bits 3–0 of `F` never read as set: they are clear in every well-formed
/// state, and every write to a pair or a half, and every tick, leaves a
/// well-formed state well formed, whatever bits were written.
pub proof fn lemma_flags_masked<B: DataBus>(s: CpuState, r: RegPair, w: u16, h: RegHalf, b: u8, bus: B)
    requires
        s.wf(),
    ensures
        s.get8(RegHalf::F) & 0x0F == 0,
        s.set16(r, w).wf(),
        s.set8(h, b).wf(),
        tick(s, bus).0.wf(),
{
    lemma_word_bytes(s.af, b);
    lemma_writes_keep_wf(s, r, w, h, b);
    if s.fault is None {
        let s1 = CpuState { t_cycles: ((s.t_cycles + 1) % 0x1_0000_0000) as u32, ..s };
        if s1.queue.len() == 0 {
            let op = bus.read_spec(s1.pc);
            if op_actions(op) is Some {
                let actions = op_actions(op).unwrap();
                lemma_action_keeps_wf(
                    CpuState { queue: actions.drop_first(), ..after_fetch(s1) },
                    bus,
                    actions[0],
                );
            }
        } else {
            lemma_action_keeps_wf(CpuState { queue: s1.queue.drop_first(), ..s1 }, bus, s1.queue[0]);
        }
    }
}

/// The CPU acts on every fourth tick only. From an idle, running state whose
/// counter is a multiple of four, the next three ticks return `Ok(false)`
/// and change nothing but the counter, and the fourth runs one machine cycle
/// that fetches exactly one byte, the opcode at `PC`, and leaves the bus as
/// it was.
pub proof fn lemma_cycle_gating<B: DataBus>(s: CpuState, bus: B)
    requires
        s.fault is None,
        s.queue.len() == 0,
        s.t_cycles % 4 == 0,
    ensures
        ({
            let (s1, b1, r1) = tick(s, bus);
            let (s2, b2, r2) = tick(s1, b1);
            let (s3, b3, r3) = tick(s2, b2);
            let (s4, b4, r4) = tick(s3, b3);
            let op = bus.read_spec(s.pc);
            &&& r1 == Ok::<bool, CpuError>(false)
            &&& r2 == Ok::<bool, CpuError>(false)
            &&& r3 == Ok::<bool, CpuError>(false)
            &&& s3 == CpuState { t_cycles: (s.t_cycles + 3) as u32, ..s }
            &&& b3 == bus
            &&& (s4, b4, r4) == machine_cycle(
                CpuState { t_cycles: ((s.t_cycles + 4) % 0x1_0000_0000) as u32, ..s },
                bus,
            )
            &&& b4 == bus
            &&& s4.pc == inc16(s.pc)
            &&& r4 == (if op_actions(op) is Some {
                Ok::<bool, CpuError>(true)
            } else {
                Err(CpuError::UnsupportedOpcode(op))
            })
        }),
{
    let op = bus.read_spec(s.pc);
    if op_actions(op) is Some {
        lemma_table_shape(op);
    }
}

/// Simulates the Game Boy's LR35902 CPU.
#[derive(Debug, Clone, Copy)]
pub struct Cpu {
    af: Reg16,
    bc: Reg16,
    de: Reg16,
    hl: Reg16,
    sp: Reg16,
    pc: Reg16,
    t_cycles: u32,
    action_queue: ActionQueue,
    imm: u16,
    ime: bool,
    fault: Option<u8>,
}

impl View for Cpu {
    type V = CpuState;

    closed spec fn view(&self) -> CpuState {
        CpuState {
            af: self.af@,
            bc: self.bc@,
            de: self.de@,
            hl: self.hl@,
            sp: self.sp@,
            pc: self.pc@,
            t_cycles: self.t_cycles,
            queue: self.action_queue@,
            imm: self.imm,
            ime: self.ime,
            fault: self.fault,
        }
    }
}

impl Cpu {
    #[verifier::type_invariant]
    spec fn flags_low_clear(self) -> bool {
        self.af@ & 0x0F == 0
    }

    /// A CPU just after reset: `PC` at `0x0100`, `SP` at `0xFFFE`, every other
    /// register zero and nothing queued. Which values the other registers
    /// hold after boot depends on the boot ROM; this core zeroes them.
    pub fn new() -> (r: Self)
        ensures
            r@ == reset_state(),
    {
        assert(0u16 & 0x0F == 0) by (bit_vector);
        Self {
            af: Reg16::new(0),
            bc: Reg16::new(0),
            de: Reg16::new(0),
            hl: Reg16::new(0),
            sp: Reg16::new(0xFFFE),
            pc: Reg16::new(0x0100),
            t_cycles: 0,
            action_queue: ActionQueue::new(),
            imm: 0,
            ime: false,
            fault: None,
        }
    }

    /// The value of the 16-bit register `r`.
    pub fn get16(&self, r: RegPair) -> (v: u16)
        ensures
            v == self@.get16(r),
    {
        match r {
            RegPair::AF => self.af.get(),
            RegPair::BC => self.bc.get(),
            RegPair::DE => self.de.get(),
            RegPair::HL => self.hl.get(),
            RegPair::SP => self.sp.get(),
            RegPair::PC => self.pc.get(),
        }
    }

    /// Writes `v` to the 16-bit register `r`; to `AF` without bits 3–0.
    pub fn set16(&mut self, r: RegPair, v: u16)
        ensures
            final(self)@ == old(self)@.set16(r, v),
    {
        proof {
            use_type_invariant(&*self);
        }
        match r {
            RegPair::AF => {
                let masked = v & 0xFFF0;
                assert(masked & 0x0F == 0) by (bit_vector)
                    requires
                        masked == v & 0xFFF0,
                ;
                self.af = Reg16::new(masked);
            },
            RegPair::BC => self.bc = Reg16::new(v),
            RegPair::DE => self.de = Reg16::new(v),
            RegPair::HL => self.hl = Reg16::new(v),
            RegPair::SP => self.sp = Reg16::new(v),
            RegPair::PC => self.pc = Reg16::new(v),
        }
    }

    /// The value of the 8-bit register `h`. Bits 3–0 of `F` read as clear.
    pub fn get8(&self, h: RegHalf) -> (v: u8)
        ensures
            v == self@.get8(h),
            h is F ==> v & 0x0F == 0,
    {
        proof {
            use_type_invariant(self);
        }
        let w = self.get16(h.pair_of());
        match h {
            RegHalf::A | RegHalf::B | RegHalf::D | RegHalf::H => (w >> 8) as u8,
            RegHalf::F => {
                let v = (w & 0xFF) as u8;
                assert(v & 0x0F == 0) by (bit_vector)
                    requires
                        w & 0x0F == 0,
                        v == (w & 0xFF) as u8,
                ;
                v
            },
            _ => (w & 0xFF) as u8,
        }
    }

    /// Writes `v` to the 8-bit register `h`; to `F` without bits 3–0.
    pub fn set8(&mut self, h: RegHalf, v: u8)
        ensures
            final(self)@ == old(self)@.set8(h, v),
    {
        let r = h.pair_of();
        let w = self.get16(r);
        match h {
            RegHalf::A | RegHalf::B | RegHalf::D | RegHalf::H => {
                self.set16(r, (w & 0x00FF) | ((v as u16) << 8));
            },
            RegHalf::F => {
                self.set16(r, (w & 0xFF00) | ((v & 0xF0) as u16));
            },
            _ => {
                self.set16(r, (w & 0xFF00) | (v as u16));
            },
        }
    }

    /// The flags register.
    pub fn flags(&self) -> (r: RegFlags)
        ensures
            r@ == self@.get8(RegHalf::F),
    {
        let v = self.get8(RegHalf::F);
        assert(v & 0xF0 == v) by (bit_vector)
            requires
                v & 0x0F == 0,
        ;
        RegFlags::from_bits(v)
    }

    pub fn set_flags(&mut self, f: RegFlags)
        ensures
            final(self)@ == old(self)@.set8(RegHalf::F, f@),
    {
        self.set8(RegHalf::F, f.bits());
    }

    /// The clock ticks counted since reset, wrapping.
    pub fn t_cycles(&self) -> (r: u32)
        ensures
            r == self@.t_cycles,
    {
        self.t_cycles
    }

    /// The immediate buffer.
    pub fn imm(&self) -> (r: u16)
        ensures
            r == self@.imm,
    {
        self.imm
    }

    /// How many actions of the current instruction are still queued; with
    /// none, the next machine cycle fetches an opcode.
    pub fn pending_actions(&self) -> (r: usize)
        ensures
            r == self@.queue.len(),
    {
        self.action_queue.len()
    }

    /// The interrupt master enable flag.
    pub fn interrupts_enabled(&self) -> (r: bool)
        ensures
            r == self@.ime,
    {
        self.ime
    }

    /// The error that stopped the CPU, if one did.
    pub fn fault(&self) -> (r: Option<CpuError>)
        ensures
            r == match self@.fault {
                Some(op) => Some(CpuError::UnsupportedOpcode(op)),
                None => None,
            },
    {
        match self.fault {
            Some(op) => Some(CpuError::UnsupportedOpcode(op)),
            None => None,
        }
    }

    /// The registers as bytes.
    pub fn byte_fields(&self) -> (r: CpuByteFields)
        ensures
            r.flags@ == self@.get8(RegHalf::F),
            r.a@ == self@.get8(RegHalf::A),
            r.b@ == self@.get8(RegHalf::B),
            r.c@ == self@.get8(RegHalf::C),
            r.d@ == self@.get8(RegHalf::D),
            r.e@ == self@.get8(RegHalf::E),
            r.h@ == self@.get8(RegHalf::H),
            r.l@ == self@.get8(RegHalf::L),
            r.sp@ == self@.sp,
            r.pc@ == self@.pc,
    {
        CpuByteFields {
            flags: self.flags(),
            a: Reg8::new(self.get8(RegHalf::A)),
            c: Reg8::new(self.get8(RegHalf::C)),
            b: Reg8::new(self.get8(RegHalf::B)),
            e: Reg8::new(self.get8(RegHalf::E)),
            d: Reg8::new(self.get8(RegHalf::D)),
            l: Reg8::new(self.get8(RegHalf::L)),
            h: Reg8::new(self.get8(RegHalf::H)),
            sp: self.sp,
            pc: self.pc,
        }
    }

    /// Reads the byte at `PC` and steps `PC` past it.
    pub fn fetch_pc<B: DataBus>(&mut self, bus: &mut B) -> (r: u8)
        ensures
            r == old(bus).read_spec(old(self)@.pc),
            final(self)@ == after_fetch(old(self)@),
            *final(bus) == *old(bus),
    {
        proof {
            use_type_invariant(&*self);
        }
        let b = bus.read(self.pc.get());
        let mut pc = self.pc;
        pc.inc();
        self.pc = pc;
        b
    }

    fn process_action<B: DataBus>(&mut self, bus: &mut B, action: CpuAction)
        ensures
            (final(self)@, *final(bus)) == run_action(old(self)@, *old(bus), action),
    {
        proof {
            use_type_invariant(&*self);
        }
        match action {
            CpuAction::Internal => {},
            CpuAction::SetInterruptEnable(on) => {
                self.ime = on;
            },
            CpuAction::ImmLow => {
                let b = self.fetch_pc(bus);
                proof {
                    use_type_invariant(&*self);
                }
                self.imm = (self.imm & 0xFF00) | (b as u16);
            },
            CpuAction::ImmLowTo(h) => {
                let b = self.fetch_pc(bus);
                self.set8(h, b);
                proof {
                    use_type_invariant(&*self);
                }
                self.imm = 0;
            },
            CpuAction::ImmHigh => {
                let b = self.fetch_pc(bus);
                proof {
                    use_type_invariant(&*self);
                }
                self.imm = (self.imm & 0x00FF) | ((b as u16) << 8);
            },
            CpuAction::ImmHighTo(r) => {
                let b = self.fetch_pc(bus);
                proof {
                    use_type_invariant(&*self);
                }
                let full = (self.imm & 0x00FF) | ((b as u16) << 8);
                self.set16(r, full);
                proof {
                    use_type_invariant(&*self);
                }
                self.imm = 0;
            },
            CpuAction::WriteRegToImm16(h) => {
                let v = self.get8(h);
                bus.write(self.imm, v);
                self.imm = 0;
            },
            CpuAction::WriteRegToHalfAddr(h) => {
                let v = self.get8(h);
                let imm = self.imm;
                let low = imm & 0xFF;
                assert(low <= 0xFF) by (bit_vector)
                    requires
                        low == imm & 0xFF,
                ;
                let offset = low as u8;
                bus.write(0xFF00 + offset as u16, v);
                self.imm = 0;
            },
        }
    }

    /// Grants one clock tick to the CPU, which acts on every fourth: it then
    /// fetches an opcode if nothing is queued, and runs one queued action.
    /// Returns whether it acted, or the error that stopped it: an opcode with
    /// no modeled execution stops the CPU, and every later tick returns the
    /// same error and changes nothing.
    pub fn t_cycle<B: DataBus>(&mut self, bus: &mut B) -> (r: Result<bool, CpuError>)
        ensures
            (final(self)@, *final(bus), r) == tick(old(self)@, *old(bus)),
    {
        proof {
            use_type_invariant(&*self);
        }
        if let Some(op) = self.fault {
            return Err(CpuError::UnsupportedOpcode(op));
        }
        self.t_cycles = self.t_cycles.wrapping_add(1);
        if self.t_cycles % 4 != 0 {
            return Ok(false);
        }
        if self.action_queue.is_empty() {
            let op_code = self.fetch_pc(bus);
            proof {
                use_type_invariant(&*self);
            }
            match action_table(op_code) {
                Some(q) => {
                    proof {
                        lemma_table_shape(op_code);
                    }
                    self.action_queue = q;
                },
                None => {
                    self.fault = Some(op_code);
                    return Err(CpuError::UnsupportedOpcode(op_code));
                },
            }
        }
        if let Some(action) = self.action_queue.pop_front() {
            self.process_action(bus, action);
        }
        Ok(true)
    }
}

/// A copy of the CPU's registers, with each pair split into its bytes.
#[derive(Debug, Clone, Copy, Default, PartialEq, Eq, PartialOrd, Ord, Hash)]
pub struct CpuByteFields {
    pub flags: RegFlags,
    pub a: Reg8,
    pub c: Reg8,
    pub b: Reg8,
    pub e: Reg8,
    pub d: Reg8,
    pub l: Reg8,
    pub h: Reg8,
    pub sp: Reg16,
    pub pc: Reg16,
}

} // verus!
