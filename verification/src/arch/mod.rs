//! Architecture-specific operand types, and what they have in common.

use vstd::prelude::*;
use vstd::std_specs::iter::IteratorSpec;

pub mod tricore;

verus! {

/// What the instruction detail of every architecture offers.
///
/// A detail stands for a finite sequence of operands in positional order.
/// `operands` hands out an iterator over that sequence; each call starts
/// again at the first operand.
pub trait DetailsArchInsn: PartialEq {
    /// The operand type of the architecture.
    type Operand: Default + Clone + PartialEq;

    /// Iterator over the operands of one instruction.
    type OperandIterator: Iterator<Item = Self::Operand>;

    /// The operands of the instruction, first one first.
    spec fn operand_seq(&self) -> Seq<Self::Operand>;

    /// Number of operands of the instruction.
    fn op_count(&self) -> (count: usize)
        ensures
            count == self.operand_seq().len(),
    ;

    /// Produces an iterator over the operands.
    fn operands(&self) -> (it: Self::OperandIterator)
        ensures
            it.obeys_prophetic_iter_laws(),
            it.decrease() is Some,
            it.remaining() == self.operand_seq(),
    ;
}

/// Walks the operands of a detail of any architecture and returns them in
/// order.
pub fn collect_operands<D: DetailsArchInsn>(detail: &D) -> (operands: Vec<D::Operand>)
    ensures
        operands@ == detail.operand_seq(),
{
    let mut it = detail.operands();
    let mut operands: Vec<D::Operand> = Vec::new();
    loop
        invariant
            it.obeys_prophetic_iter_laws(),
            it.decrease() is Some,
            operands@ + it.remaining() == detail.operand_seq(),
        ensures
            operands@ == detail.operand_seq(),
        decreases it.decrease().unwrap(),
    {
        match it.next() {
            Some(op) => {
                operands.push(op);
            },
            None => {
                break;
            },
        }
    }
    operands
}

} // verus!
