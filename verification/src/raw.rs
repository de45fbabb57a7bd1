//! The engine's TriCore detail record, held as plain values.
//!
//! The engine writes a record of eight operand entries and a count. Each
//! entry is a tagged union: a type tag, a payload that overlays a register
//! number, an immediate and a memory reference, and an access mask. The
//! types here hold what a read of each field gives. The tag of an entry
//! alone says which payload member the engine stored; [`selected_member`]
//! is that rule.

use vstd::prelude::*;

verus! {

/// Tag of an entry that holds no operand.
pub const TRICORE_OP_INVALID: u32 = 0;

/// Tag of a register operand.
pub const TRICORE_OP_REG: u32 = 1;

/// Tag of an immediate operand.
pub const TRICORE_OP_IMM: u32 = 2;

/// Tag of a memory operand.
pub const TRICORE_OP_MEM: u32 = 3;

/// Number of operand entries in a detail record.
pub const TRICORE_MAX_OPERANDS: usize = 8;

/// The memory member of a payload: a base register and a displacement.
#[derive(Clone, Copy, Debug, PartialEq, Eq, PartialOrd, Ord, Hash, Structural)]
pub struct RawOpMem {
    /// Base register, as the engine numbers it.
    pub base: u8,
    /// Displacement from the base register.
    pub disp: i32,
}

/// The payload of an entry, seen through each of its members.
///
/// The engine stores one member. The other two overlay the same storage, so
/// what they read as is of no meaning; a value of this type fixes what each
/// read gives and says nothing about which member was stored.
#[derive(Clone, Copy, Debug)]
pub struct RawPayload {
    /// The payload read as a register number.
    pub reg: u32,
    /// The payload read as an immediate.
    pub imm: i32,
    /// The payload read as a memory reference.
    pub mem: RawOpMem,
}

/// One operand entry of a detail record.
#[derive(Clone, Copy, Debug)]
pub struct RawOperand {
    /// Type tag; it alone says which payload member is meaningful.
    pub type_: u32,
    /// The overlaid payload.
    pub payload: RawPayload,
    /// How the instruction accesses the operand (read, write or both).
    pub access: u8,
}

/// The detail record of one instruction.
#[derive(Clone, Copy, Debug)]
pub struct RawInsnDetail {
    /// Number of populated entries, counted from the front of `operands`.
    pub op_count: u8,
    /// Operand entries; those at `op_count` and beyond are stale.
    pub operands: [RawOperand; 8],
    /// Whether the instruction updates the flags register.
    pub update_flags: bool,
}

/// A member of the payload union.
#[derive(Clone, Copy, Debug, PartialEq, Eq, Structural)]
pub enum PayloadMember {
    /// The register number.
    Reg,
    /// The immediate.
    Imm,
    /// The memory reference.
    Mem,
}

/// The payload member that a tag selects, if it selects any.
pub open spec fn selected(type_: u32) -> Option<PayloadMember> {
    if type_ == TRICORE_OP_REG {
        Some(PayloadMember::Reg)
    } else if type_ == TRICORE_OP_IMM {
        Some(PayloadMember::Imm)
    } else if type_ == TRICORE_OP_MEM {
        Some(PayloadMember::Mem)
    } else {
        None
    }
}

/// Tells which payload member an entry with the tag `type_` holds. It is
/// the only member of that entry that may be read. The tag of an empty
/// entry, and any tag that the engine does not define, selects none.
pub fn selected_member(type_: u32) -> (member: Option<PayloadMember>)
    ensures
        member == selected(type_),
        type_ == TRICORE_OP_INVALID || type_ > TRICORE_OP_MEM ==> member.is_none(),
{
    if type_ == TRICORE_OP_REG {
        Some(PayloadMember::Reg)
    } else if type_ == TRICORE_OP_IMM {
        Some(PayloadMember::Imm)
    } else if type_ == TRICORE_OP_MEM {
        Some(PayloadMember::Mem)
    } else {
        None
    }
}

impl RawPayload {
    /// The payload of which every member reads as zero, for use in contracts.
    pub open spec fn spec_zeroed() -> RawPayload {
        RawPayload { reg: 0, imm: 0, mem: RawOpMem { base: 0, disp: 0 } }
    }

    /// A payload of which every member reads as zero.
    #[verifier::when_used_as_spec(spec_zeroed)]
    pub fn zeroed() -> (payload: RawPayload)
        ensures
            payload == RawPayload::spec_zeroed(),
    {
        RawPayload { reg: 0, imm: 0, mem: RawOpMem { base: 0, disp: 0 } }
    }

    /// A payload whose register member reads as `reg`; the others read as zero.
    pub fn with_reg(reg: u32) -> (payload: RawPayload)
        ensures
            payload == (RawPayload { reg, ..RawPayload::zeroed() }),
    {
        RawPayload { reg, imm: 0, mem: RawOpMem { base: 0, disp: 0 } }
    }

    /// A payload whose immediate member reads as `imm`; the others read as zero.
    pub fn with_imm(imm: i32) -> (payload: RawPayload)
        ensures
            payload == (RawPayload { imm, ..RawPayload::zeroed() }),
    {
        RawPayload { reg: 0, imm, mem: RawOpMem { base: 0, disp: 0 } }
    }

    /// A payload whose memory member reads as `mem`; the others read as zero.
    pub fn with_mem(mem: RawOpMem) -> (payload: RawPayload)
        ensures
            payload == (RawPayload { mem, ..RawPayload::zeroed() }),
    {
        RawPayload { reg: 0, imm: 0, mem }
    }
}

} // verus!
