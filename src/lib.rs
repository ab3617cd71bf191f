//! Lowering primitives for the stack-based EVM legacy assembly: the virtual
//! evaluation stack, its five instruction translators, and the diagnostic
//! scan over a Solidity syntax tree.

pub mod word;
pub mod stack;
pub mod text;
pub mod source;
pub mod bytecode;
