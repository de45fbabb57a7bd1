//! TriCore operands.
//!
//! [`TricoreOperand::from`] turns one raw entry into a typed operand: it
//! looks at the tag of the entry and reads the one payload member that the
//! tag selects. [`TricoreInsnDetail`] wraps a whole detail record and hands
//! out its operands in positional order, as many as the record counts.

use vstd::prelude::*;
use vstd::std_specs::cmp::PartialEqSpec;
use vstd::std_specs::cmp::PartialEqSpecImpl;
use vstd::std_specs::convert::FromSpecImpl;
use vstd::std_specs::iter::IteratorSpecImpl;

use crate::arch::DetailsArchInsn;
use crate::instruction::{RegId, RegIdInt};
use crate::raw::{
    selected, selected_member, PayloadMember, RawInsnDetail, RawOpMem, RawOperand,
    TRICORE_MAX_OPERANDS, TRICORE_OP_IMM, TRICORE_OP_INVALID, TRICORE_OP_MEM, TRICORE_OP_REG,
};

verus! {

/// TRICORE memory operand
#[derive(Clone, Copy, Debug, PartialEq, Eq, PartialOrd, Ord, Structural)]
pub struct TricoreOpMem(pub RawOpMem);

impl TricoreOpMem {
    /// The base register, for use in contracts.
    pub open spec fn spec_base(&self) -> RegId {
        RegId(self.0.base as RegIdInt)
    }

    /// The displacement, for use in contracts.
    pub open spec fn spec_disp(&self) -> i32 {
        self.0.disp
    }

    /// Base register
    #[verifier::when_used_as_spec(spec_base)]
    pub fn base(&self) -> (reg: RegId)
        ensures
            reg == self.spec_base(),
            reg.0 as int == self.0.base as int,
    {
        RegId(self.0.base as RegIdInt)
    }

    /// Disp value
    #[verifier::when_used_as_spec(spec_disp)]
    pub fn disp(&self) -> (disp: i32)
        ensures
            disp == self.0.disp,
    {
        self.0.disp
    }
}

/// TRICORE operand
#[derive(Debug, PartialEq, Eq, Structural)]
pub enum TricoreOperand {
    /// Register
    Reg(RegId),
    /// Immediate
    Imm(i32),
    /// Memory
    Mem(TricoreOpMem),
    /// Invalid
    Invalid,
}

impl Clone for TricoreOperand {
    fn clone(&self) -> (copy: TricoreOperand)
        ensures
            copy == *self,
    {
        match self {
            TricoreOperand::Reg(reg) => TricoreOperand::Reg(*reg),
            TricoreOperand::Imm(imm) => TricoreOperand::Imm(*imm),
            TricoreOperand::Mem(mem) => TricoreOperand::Mem(*mem),
            TricoreOperand::Invalid => TricoreOperand::Invalid,
        }
    }
}

impl Default for TricoreOperand {
    fn default() -> (operand: TricoreOperand)
        ensures
            operand == TricoreOperand::Invalid,
    {
        TricoreOperand::Invalid
    }
}

/// The register identifier that a raw register number narrows to: its low
/// sixteen bits. A number that fits in sixteen bits narrows to itself.
pub open spec fn narrow_reg(reg: u32) -> RegIdInt {
    (reg % 0x1_0000) as RegIdInt
}

/// The operand that a raw entry stands for.
///
/// The tag selects the one payload member that is read. A tag that selects
/// none gives `Invalid`.
pub open spec fn decode(op: RawOperand) -> TricoreOperand {
    match selected(op.type_) {
        Some(PayloadMember::Reg) => TricoreOperand::Reg(RegId(narrow_reg(op.payload.reg))),
        Some(PayloadMember::Imm) => TricoreOperand::Imm(op.payload.imm),
        Some(PayloadMember::Mem) => TricoreOperand::Mem(TricoreOpMem(op.payload.mem)),
        None => TricoreOperand::Invalid,
    }
}

/// The operands that a run of raw entries stands for, in the same order.
pub open spec fn decode_all(ops: Seq<RawOperand>) -> Seq<TricoreOperand> {
    Seq::new(ops.len(), |i: int| decode(ops[i]))
}

impl<'a> FromSpecImpl<&'a RawOperand> for TricoreOperand {
    open spec fn obeys_from_spec() -> bool {
        true
    }

    open spec fn from_spec(insn: &'a RawOperand) -> TricoreOperand {
        decode(*insn)
    }
}

impl<'a> From<&'a RawOperand> for TricoreOperand {
    fn from(insn: &'a RawOperand) -> (operand: TricoreOperand)
        ensures
            operand == decode(*insn),
            insn.type_ == TRICORE_OP_INVALID ==> operand == TricoreOperand::Invalid,
            insn.type_ == TRICORE_OP_REG ==> operand == TricoreOperand::Reg(
                RegId(narrow_reg(insn.payload.reg)),
            ),
            insn.type_ == TRICORE_OP_REG && insn.payload.reg <= RegIdInt::MAX ==> (operand
                matches TricoreOperand::Reg(id) && id.0 as int == insn.payload.reg as int),
            insn.type_ == TRICORE_OP_IMM ==> operand == TricoreOperand::Imm(insn.payload.imm),
            insn.type_ == TRICORE_OP_MEM ==> (operand matches TricoreOperand::Mem(mem)
                && mem.base().0 as int == insn.payload.mem.base as int
                && mem.disp() == insn.payload.mem.disp),
            insn.type_ > TRICORE_OP_MEM ==> operand == TricoreOperand::Invalid,
    {
        match selected_member(insn.type_) {
            Some(PayloadMember::Reg) => {
                let reg: u32 = insn.payload.reg;
                assert(reg as u16 == (reg % 0x1_0000) as u16) by (bit_vector);
                TricoreOperand::Reg(RegId(reg as RegIdInt))
            },
            Some(PayloadMember::Imm) => TricoreOperand::Imm(insn.payload.imm),
            Some(PayloadMember::Mem) => TricoreOperand::Mem(TricoreOpMem(insn.payload.mem)),
            None => TricoreOperand::Invalid,
        }
    }
}

/// Iterates over instruction operands
#[derive(Debug)]
pub struct TricoreOperandIterator<'a> {
    ops: &'a [RawOperand],
    pos: usize,
}

impl<'a> TricoreOperandIterator<'a> {
    #[verifier::type_invariant]
    spec fn in_bounds(self) -> bool {
        self.pos <= self.ops@.len()
    }

    /// The raw entries that the iterator walks, visited or not.
    pub closed spec fn entries(self) -> Seq<RawOperand> {
        self.ops@
    }

    /// How many of the entries have been visited.
    pub closed spec fn visited(self) -> nat {
        self.pos as nat
    }

    fn new(ops: &'a [RawOperand]) -> (it: TricoreOperandIterator<'a>)
        ensures
            it.entries() == ops@,
            it.visited() == 0,
    {
        TricoreOperandIterator { ops, pos: 0 }
    }
}

impl<'a> View for TricoreOperandIterator<'a> {
    type V = Seq<TricoreOperand>;

    /// The operands still to come, next one first.
    open spec fn view(&self) -> Seq<TricoreOperand> {
        decode_all(self.entries().skip(self.visited() as int))
    }
}

impl<'a> Clone for TricoreOperandIterator<'a> {
    fn clone(&self) -> (copy: TricoreOperandIterator<'a>)
        ensures
            copy == *self,
    {
        proof {
            use_type_invariant(self);
        }
        TricoreOperandIterator { ops: self.ops, pos: self.pos }
    }
}

impl<'a> Iterator for TricoreOperandIterator<'a> {
    type Item = TricoreOperand;

    fn next(&mut self) -> (ret: Option<TricoreOperand>)
        ensures
            old(self)@.len() > 0 ==> ret == Some(old(self)@[0]) && final(self)@ == old(self)@.skip(1),
            old(self)@.len() == 0 ==> ret.is_none() && *final(self) == *old(self),
            final(self).entries() == old(self).entries(),
            ret.is_some() ==> final(self).visited() == old(self).visited() + 1,
    {
        proof {
            use_type_invariant(&*self);
        }
        if self.pos < self.ops.len() {
            let op = &self.ops[self.pos];
            self.pos = self.pos + 1;
            Some(TricoreOperand::from(op))
        } else {
            None
        }
    }

    fn size_hint(&self) -> (bounds: (usize, Option<usize>))
        ensures
            bounds.0 == self@.len(),
            bounds.1 == Some(bounds.0),
    {
        proof {
            use_type_invariant(self);
        }
        let n = self.ops.len() - self.pos;
        (n, Some(n))
    }
}

impl<'a> ExactSizeIterator for TricoreOperandIterator<'a> {
    fn len(&self) -> (n: usize)
        ensures
            n == self@.len(),
    {
        proof {
            use_type_invariant(self);
        }
        self.ops.len() - self.pos
    }
}

impl<'a> IteratorSpecImpl for TricoreOperandIterator<'a> {
    open spec fn obeys_prophetic_iter_laws(&self) -> bool {
        true
    }

    open spec fn remaining(&self) -> Seq<TricoreOperand> {
        self@
    }

    open spec fn will_return_none(&self) -> bool {
        true
    }

    open spec fn decrease(&self) -> Option<nat> {
        Some(self@.len())
    }

    open spec fn initial_value_relation(&self, init: &Self) -> bool {
        init@ == self@
    }

    open spec fn peek(&self, index: int) -> Option<TricoreOperand> {
        if 0 <= index < self@.len() {
            Some(self@[index])
        } else {
            None
        }
    }
}

impl<'a> PartialEqSpecImpl for TricoreOperandIterator<'a> {
    open spec fn obeys_eq_spec() -> bool {
        true
    }

    /// Two iterators are equal when the operands still to come are.
    open spec fn eq_spec(&self, other: &TricoreOperandIterator<'a>) -> bool {
        self@ == other@
    }
}

impl<'a> PartialEq for TricoreOperandIterator<'a> {
    fn eq(&self, other: &TricoreOperandIterator<'a>) -> (equal: bool) {
        proof {
            use_type_invariant(self);
            use_type_invariant(other);
        }
        let n = self.ops.len() - self.pos;
        if other.ops.len() - other.pos != n {
            assert(self@.len() != other@.len());
            return false;
        }
        let mut i: usize = 0;
        while i < n
            invariant
                i <= n,
                self.pos + n == self.ops@.len() <= usize::MAX,
                other.pos + n == other.ops@.len() <= usize::MAX,
                n == self@.len(),
                n == other@.len(),
                forall|j: int| 0 <= j < i ==> self@[j] == other@[j],
            decreases n - i,
        {
            let mine = TricoreOperand::from(&self.ops[self.pos + i]);
            let theirs = TricoreOperand::from(&other.ops[other.pos + i]);
            if !(mine == theirs) {
                assert(self@[i as int] != other@[i as int]);
                return false;
            }
            i = i + 1;
        }
        assert(self@ =~= other@);
        true
    }
}

/// The populated entries of a record: the first `op_count` of them.
pub open spec fn populated(raw: RawInsnDetail) -> Seq<RawOperand> {
    Seq::new(raw.op_count as nat, |i: int| raw.operands[i])
}

/// Contains TRICORE-specific details for an instruction
#[derive(Debug)]
pub struct TricoreInsnDetail<'a>(&'a RawInsnDetail);

impl<'a> TricoreInsnDetail<'a> {
    #[verifier::type_invariant]
    spec fn count_in_bounds(self) -> bool {
        self.0.op_count <= TRICORE_MAX_OPERANDS
    }

    /// The record that the detail looks at.
    pub closed spec fn raw(self) -> RawInsnDetail {
        *self.0
    }

    /// Wraps the record of one instruction. The record is borrowed and never
    /// changed. Its count must not exceed the number of entries it has room
    /// for.
    pub fn new(raw: &'a RawInsnDetail) -> (detail: TricoreInsnDetail<'a>)
        requires
            raw.op_count <= TRICORE_MAX_OPERANDS,
        ensures
            detail.raw() == *raw,
    {
        TricoreInsnDetail(raw)
    }
}

impl<'a> View for TricoreInsnDetail<'a> {
    type V = Seq<TricoreOperand>;

    /// The operands of the instruction, in positional order.
    open spec fn view(&self) -> Seq<TricoreOperand> {
        decode_all(populated(self.raw()))
    }
}

impl<'a> DetailsArchInsn for TricoreInsnDetail<'a> {
    type Operand = TricoreOperand;

    type OperandIterator = TricoreOperandIterator<'a>;

    open spec fn operand_seq(&self) -> Seq<TricoreOperand> {
        self@
    }

    fn op_count(&self) -> (count: usize)
        ensures
            count == self.raw().op_count,
            count <= TRICORE_MAX_OPERANDS,
    {
        proof {
            use_type_invariant(self);
        }
        self.0.op_count as usize
    }

    fn operands(&self) -> (it: TricoreOperandIterator<'a>)
        ensures
            it@ == self@,
            it@.len() == self.raw().op_count,
            it.entries() == populated(self.raw()),
            it.visited() == 0,
    {
        proof {
            use_type_invariant(self);
        }
        let count = self.0.op_count as usize;
        TricoreOperandIterator::new(&self.0.operands[0..count])
    }
}

impl<'a> PartialEqSpecImpl for TricoreInsnDetail<'a> {
    open spec fn obeys_eq_spec() -> bool {
        true
    }

    /// Two details are equal when their operand sequences are.
    open spec fn eq_spec(&self, other: &TricoreInsnDetail<'a>) -> bool {
        self@ == other@
    }
}

impl<'a> PartialEq for TricoreInsnDetail<'a> {
    fn eq(&self, other: &TricoreInsnDetail<'a>) -> (equal: bool) {
        self.operands() == other.operands()
    }
}

/// A detail has exactly as many operands as its record counts, and the
/// operand at each position is the one that the entry at that position
/// stands for. The entries beyond the count contribute nothing.
pub proof fn lemma_operands_follow_record(detail: TricoreInsnDetail)
    ensures
        detail@.len() == detail.raw().op_count,
        forall|i: int|
            0 <= i < detail.raw().op_count ==> detail@[i] == decode(
                #[trigger] detail.raw().operands[i],
            ),
{
}

/// Whether two entries agree on what decoding reads: the tag, and the
/// payload member that the tag selects. The other members and the access
/// mask may differ.
pub open spec fn same_operand(a: RawOperand, b: RawOperand) -> bool {
    &&& a.type_ == b.type_
    &&& match selected(a.type_) {
        Some(PayloadMember::Reg) => a.payload.reg == b.payload.reg,
        Some(PayloadMember::Imm) => a.payload.imm == b.payload.imm,
        Some(PayloadMember::Mem) => a.payload.mem == b.payload.mem,
        None => true,
    }
}

/// Whether two records agree on the operand count and, entry by entry, on
/// what decoding reads of the populated entries. The stale entries and the
/// flags may differ.
pub open spec fn same_operands(a: RawInsnDetail, b: RawInsnDetail) -> bool {
    &&& a.op_count == b.op_count
    &&& forall|i: int| 0 <= i < a.op_count ==> same_operand(#[trigger] a.operands[i], b.operands[i])
}

/// Decoding depends on the tag and on the selected payload member alone:
/// entries that agree on both stand for the same operand.
pub proof fn lemma_decode_reads_selected_member(a: RawOperand, b: RawOperand)
    requires
        same_operand(a, b),
    ensures
        decode(a) == decode(b),
{
}

/// Details over records that hold the same operands are equal, whatever the
/// records hold in stale entries, unselected payload members, access masks
/// and flags.
pub proof fn lemma_same_operands_equal(a: TricoreInsnDetail, b: TricoreInsnDetail)
    requires
        same_operands(a.raw(), b.raw()),
    ensures
        a@ == b@,
        PartialEqSpec::eq_spec(&a, &b),
{
    assert forall|i: int| 0 <= i < a@.len() implies a@[i] == b@[i] by {
        lemma_decode_reads_selected_member(a.raw().operands[i], b.raw().operands[i]);
    }
}

} // verus!
