//! The errors that the driver reports.
use vstd::prelude::*;

verus! {

/// Why a driver operation failed.
#[derive(Clone, Copy, Debug, PartialEq, Eq, Structural)]
pub enum DriverError {
    /// The script VM failed to run, parse or serialize a program.
    Vm,
    /// A typed value could not be encoded as a VM node.
    ToClvm,
    /// A VM node does not have the shape of the expected typed value.
    FromClvm(FromClvmError),
    /// A layer was expected in curried form but a plain program was found.
    NonStandardLayer,
    /// A spend creates no coin of odd amount where one is required.
    MissingChild,
    /// The memo list is shorter than the protocol requires.
    MissingMemo,
    /// A memo has the wrong size or content.
    InvalidMemo,
    /// A Merkle proof does not lead to the stored root.
    InvalidMerkleProof,
    /// A recognised layer carries another module hash than expected.
    LayerMismatch,
}

/// How a VM node failed to match a typed value.
#[derive(Clone, Copy, Debug, PartialEq, Eq, Structural)]
pub enum FromClvmError {
    /// An atom was found where a pair is required.
    ExpectedPair,
    /// A pair was found where an atom is required.
    ExpectedAtom,
    /// An atom has the wrong number of bytes: `expected` is the number that
    /// the type takes (for a number, the most that it takes), `found` the
    /// number that the atom has.
    WrongAtomLength { expected: usize, found: usize },
    /// A field that is fixed by the type holds another value.
    WrongConstant,
    /// The node has the shape of none of the forms that the type can take.
    NoMatchingVariant,
    /// An atom of the right size holds bytes that are no value of the type.
    InvalidValue,
}

/// The error for an atom of `found` bytes where the type takes `expected`.
pub open spec fn wrong_length(expected: nat, found: nat) -> FromClvmError {
    FromClvmError::WrongAtomLength { expected: expected as usize, found: found as usize }
}

} // verus!
