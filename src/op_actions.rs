//! The micro-operations of each opcode, one per machine cycle.

use vstd::prelude::*;

use crate::cpu::{RegHalf, RegPair};
use crate::instruction::{decoded, encoded_length, Instruction, R16p, R8m};

verus! {

/// The most machine cycles that one instruction takes.
pub const QUEUE_CAPACITY: usize = 8;

/// One machine cycle's worth of work.
#[derive(Debug, Clone, Copy, PartialEq, Eq, Structural, PartialOrd, Ord, Hash)]
pub enum CpuAction {
    /// Nothing happens this cycle.
    Internal,
    /// Sets or clears the interrupt master enable flag.
    SetInterruptEnable(bool),
    /// Fetches a byte at `PC` into the low byte of the immediate buffer.
    ImmLow,
    /// Fetches a byte at `PC` into an 8-bit register and clears the buffer.
    ImmLowTo(RegHalf),
    /// Fetches a byte at `PC` into the high byte of the immediate buffer.
    ImmHigh,
    /// Fetches a byte at `PC` into the high byte of the immediate buffer,
    /// then moves the whole buffer into a register pair and clears it.
    ImmHighTo(RegPair),
    /// Writes an 8-bit register to the address in the buffer and clears it.
    WriteRegToImm16(RegHalf),
    /// Writes an 8-bit register to `0xFF00` plus the buffer's low byte and
    /// clears the buffer.
    WriteRegToHalfAddr(RegHalf),
}

impl CpuAction {
    /// Whether this action reads the operand byte at `PC`.
    pub open spec fn fetches(self) -> bool {
        match self {
            CpuAction::ImmLow
            | CpuAction::ImmLowTo(_)
            | CpuAction::ImmHigh
            | CpuAction::ImmHighTo(_) => true,
            _ => false,
        }
    }

    /// Whether this action reads or writes the bus.
    pub open spec fn uses_bus(self) -> bool {
        self.fetches() || self is WriteRegToImm16 || self is WriteRegToHalfAddr
    }
}

/// How many actions of `s` fetch an operand byte.
pub open spec fn fetch_count(s: Seq<CpuAction>) -> nat
    decreases s.len(),
{
    if s.len() == 0 {
        0
    } else {
        fetch_count(s.drop_last()) + if s.last().fetches() {
            1nat
        } else {
            0nat
        }
    }
}

/// The register pair that an `R16p` operand names.
pub open spec fn pair_of(r: R16p) -> RegPair {
    match r {
        R16p::BC => RegPair::BC,
        R16p::DE => RegPair::DE,
        R16p::HL => RegPair::HL,
        R16p::SP => RegPair::SP,
    }
}

/// The 8-bit register that an `R8m` operand names; `HLm` names memory and
/// has none.
pub open spec fn half_of(r: R8m) -> RegHalf {
    match r {
        R8m::B => RegHalf::B,
        R8m::C => RegHalf::C,
        R8m::D => RegHalf::D,
        R8m::E => RegHalf::E,
        R8m::H => RegHalf::H,
        R8m::L => RegHalf::L,
        _ => RegHalf::A,
    }
}

/// The actions of the instruction `ins`, first to last; `None` where its
/// execution is not modeled. The first action runs in the machine cycle that
/// fetched the opcode.
pub open spec fn instruction_actions(ins: Instruction) -> Option<Seq<CpuAction>> {
    match ins {
        Instruction::Nop => Some(seq![CpuAction::Internal]),
        Instruction::LdR16pImm16(r, _) => Some(
            seq![CpuAction::Internal, CpuAction::ImmLow, CpuAction::ImmHighTo(pair_of(r))],
        ),
        Instruction::LdR8mImm8(r, _) => if r is HLm {
            None
        } else {
            Some(seq![CpuAction::Internal, CpuAction::ImmLowTo(half_of(r))])
        },
        Instruction::JumpImm16(_) => Some(
            seq![
                CpuAction::Internal,
                CpuAction::ImmLow,
                CpuAction::ImmHighTo(RegPair::PC),
                CpuAction::Internal,
            ],
        ),
        Instruction::LdhImm8ToA(_, false) => Some(
            seq![CpuAction::Internal, CpuAction::ImmLow, CpuAction::WriteRegToHalfAddr(RegHalf::A)],
        ),
        Instruction::LdImm16ToA(false) => Some(
            seq![
                CpuAction::Internal,
                CpuAction::ImmLow,
                CpuAction::ImmHigh,
                CpuAction::WriteRegToImm16(RegHalf::A),
            ],
        ),
        Instruction::DI => Some(seq![CpuAction::SetInterruptEnable(false)]),
        Instruction::EI => Some(seq![CpuAction::SetInterruptEnable(true)]),
        _ => None,
    }
}

/// The actions of the opcode `op`: those of the instruction it decodes to.
pub open spec fn op_actions(op: u8) -> Option<Seq<CpuAction>> {
    instruction_actions(decoded(op))
}

/// Each modeled opcode fetches exactly as many operand bytes as its encoding
/// holds after the opcode byte.
pub proof fn lemma_length_agreement(op: u8)
    requires
        op_actions(op) is Some,
    ensures
        fetch_count(op_actions(op).unwrap()) == encoded_length(op) - 1,
{
    reveal_with_fuel(fetch_count, 5);
    let s = op_actions(op).unwrap();
    let e = Seq::<CpuAction>::empty();
    if s.len() == 1 {
        assert(s.drop_last() =~= e);
    } else if s.len() == 2 {
        assert(s.drop_last().drop_last() =~= e);
    } else if s.len() == 3 {
        assert(s.drop_last().drop_last().drop_last() =~= e);
    } else {
        assert(s.drop_last().drop_last().drop_last().drop_last() =~= e);
    }
}

/// Each modeled opcode has between one and `QUEUE_CAPACITY` actions, and the
/// first of them, which shares its machine cycle with the opcode fetch,
/// leaves the bus alone.
pub proof fn lemma_table_shape(op: u8)
    requires
        op_actions(op) is Some,
    ensures
        1 <= op_actions(op).unwrap().len() <= QUEUE_CAPACITY,
        !op_actions(op).unwrap()[0].uses_bus(),
{
}

/// A first-in first-out queue of at most `QUEUE_CAPACITY` actions.
#[derive(Debug, Clone, Copy)]
pub struct ActionQueue {
    items: [CpuAction; QUEUE_CAPACITY],
    next: usize,
    end: usize,
}

impl View for ActionQueue {
    type V = Seq<CpuAction>;

    closed spec fn view(&self) -> Seq<CpuAction> {
        self.items@.subrange(self.next as int, self.end as int)
    }
}

impl ActionQueue {
    #[verifier::type_invariant]
    spec fn bounds(self) -> bool {
        self.next <= self.end <= QUEUE_CAPACITY
    }

    /// An empty queue.
    pub fn new() -> (r: Self)
        ensures
            r@ == Seq::<CpuAction>::empty(),
    {
        ActionQueue { items: [CpuAction::Internal; QUEUE_CAPACITY], next: 0, end: 0 }
    }

    /// A queue that holds the first `len` actions of `items`.
    fn filled(items: [CpuAction; QUEUE_CAPACITY], len: usize) -> (r: Self)
        requires
            len <= QUEUE_CAPACITY,
        ensures
            r@ == items@.subrange(0, len as int),
    {
        ActionQueue { items, next: 0, end: len }
    }

    pub fn len(&self) -> (r: usize)
        ensures
            r == self@.len(),
            r <= QUEUE_CAPACITY,
    {
        proof {
            use_type_invariant(self);
        }
        self.end - self.next
    }

    pub fn is_empty(&self) -> (r: bool)
        ensures
            r == (self@.len() == 0),
    {
        proof {
            use_type_invariant(self);
        }
        self.next == self.end
    }

    /// Takes the action at the front, if there is one.
    pub fn pop_front(&mut self) -> (r: Option<CpuAction>)
        ensures
            old(self)@.len() == 0 ==> r is None && final(self)@ == old(self)@,
            old(self)@.len() > 0 ==> r == Some(old(self)@[0]) && final(self)@ == old(self)@.drop_first(),
        no_unwind
    {
        proof {
            use_type_invariant(&*self);
        }
        if self.next == self.end {
            None
        } else {
            let a = self.items[self.next];
            self.next = self.next + 1;
            Some(a)
        }
    }
}

/// The actions of the opcode `op` as a queue, ready to run; `None` where the
/// opcode's execution is not modeled.
pub fn action_table(op: u8) -> (r: Option<ActionQueue>)
    ensures
        r is None <==> op_actions(op) is None,
        r matches Some(q) ==> op_actions(op) == Some(q@),
{
    let i = CpuAction::Internal;
    let fetch = CpuAction::ImmLow;
    let (items, len): ([CpuAction; QUEUE_CAPACITY], usize) = match Instruction::new(op) {
        Instruction::Nop => ([i, i, i, i, i, i, i, i], 1),
        Instruction::LdR16pImm16(r, _) => {
            let to = match r {
                R16p::BC => RegPair::BC,
                R16p::DE => RegPair::DE,
                R16p::HL => RegPair::HL,
                R16p::SP => RegPair::SP,
            };
            ([i, fetch, CpuAction::ImmHighTo(to), i, i, i, i, i], 3)
        },
        Instruction::LdR8mImm8(r, _) => {
            let to = match r {
                R8m::B => RegHalf::B,
                R8m::C => RegHalf::C,
                R8m::D => RegHalf::D,
                R8m::E => RegHalf::E,
                R8m::H => RegHalf::H,
                R8m::L => RegHalf::L,
                R8m::A => RegHalf::A,
                R8m::HLm => {
                    return None;
                },
            };
            ([i, CpuAction::ImmLowTo(to), i, i, i, i, i, i], 2)
        },
        Instruction::JumpImm16(_) => ([i, fetch, CpuAction::ImmHighTo(RegPair::PC), i, i, i, i, i], 4),
        Instruction::LdhImm8ToA(_, false) => (
            [i, fetch, CpuAction::WriteRegToHalfAddr(RegHalf::A), i, i, i, i, i],
            3,
        ),
        Instruction::LdImm16ToA(false) => (
            [i, fetch, CpuAction::ImmHigh, CpuAction::WriteRegToImm16(RegHalf::A), i, i, i, i],
            4,
        ),
        Instruction::DI => ([CpuAction::SetInterruptEnable(false), i, i, i, i, i, i, i], 1),
        Instruction::EI => ([CpuAction::SetInterruptEnable(true), i, i, i, i, i, i, i], 1),
        _ => {
            return None;
        },
    };
    let q = ActionQueue::filled(items, len);
    assert(op_actions(op) == Some(q@));
    Some(q)
}

} // verus!
