//! The EVM bytecode of a compiled contract.

use vstd::prelude::*;

verus! {

/// The EVM bytecode of a compiled contract.
#[derive(Debug)]
pub struct Bytecode {
    /// The bytecode object.
    pub object: String,
}

impl Bytecode {
    /// A bytecode that holds `object`.
    pub fn new(object: String) -> (r: Bytecode)
        ensures
            r.object == object,
    {
        Bytecode { object }
    }
}

} // verus!
