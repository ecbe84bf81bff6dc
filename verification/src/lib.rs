//! Typed access to memory-mapped control/status registers.
//!
//! A [`Register`] names a machine word of a peripheral's register block, a
//! [`Field`] a run of bits within one, and a [`CSR`] turns logical values
//! into the words to write and the words read into logical values.

pub mod accessor;
pub mod field;
pub mod laws;
pub mod register;

pub use accessor::CSR;
pub use field::Field;
pub use register::Register;
