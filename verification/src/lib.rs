//! Operand decoding for TriCore instruction details.
//!
//! A disassembly engine describes the operands of one instruction in a raw
//! detail record: a fixed array of tagged entries and a count of how many of
//! them are populated. This crate turns such a record into typed operands
//! and proves what each conversion returns.
//!
//! * [`raw`] holds the record as plain values, and the rule by which the tag
//!   of an entry selects the payload member to read.
//! * [`arch::tricore`] holds the typed operands, the conversion of one entry,
//!   and the detail view with its operand iterator.
//! * [`arch`] holds the interface that the detail of every architecture
//!   offers.
//! * [`instruction`] holds the register identifier.

pub mod arch;
pub mod instruction;
pub mod raw;
