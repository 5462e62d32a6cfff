//! Signatures over the curve secp256r1.
use vstd::prelude::*;
use crate::codec::parse_atom;
use crate::error::{wrong_length, FromClvmError};
use crate::node::{Node, Tree};
use crate::number::be_value;

verus! {

/// The order of the group of secp256r1, as big-endian bytes.
pub open spec fn group_order() -> Seq<u8> {
    seq![
        0xffu8, 0xff, 0xff, 0xff, 0x00, 0x00, 0x00, 0x00, 0xff, 0xff, 0xff, 0xff, 0xff, 0xff, 0xff,
        0xff, 0xbc, 0xe6, 0xfa, 0xad, 0xa7, 0x17, 0x9e, 0x84, 0xf3, 0xb9, 0xca, 0xc2, 0xfc, 0x63,
        0x25, 0x51,
    ]
}

/// Whether 32 bytes, read as a big-endian number, are a scalar of a
/// signature: at least 1 and below the order of the group.
pub open spec fn scalar_in_range(bytes: Seq<u8>) -> bool {
    1 <= be_value(bytes) < be_value(group_order())
}

/// Whether bytes are a signature: 64 bytes whose two halves are scalars in
/// range.
pub open spec fn signature_accepted(bytes: Seq<u8>) -> bool {
    &&& bytes.len() == 64
    &&& scalar_in_range(bytes.subrange(0, 32))
    &&& scalar_in_range(bytes.subrange(32, 64))
}

/// `p256::ecdsa::Signature::from_slice`: whether the bytes are accepted as
/// the two scalars of a signature, which they are where both halves, read as
/// big-endian numbers, are at least 1 and below the order of the group.
#[verifier::external_body]
fn p256_accepts(bytes: &[u8; 64]) -> (r: bool)
    ensures
        r == signature_accepted(bytes@),
{
    p256::ecdsa::Signature::from_slice(bytes).is_ok()
}

/// The bytes handed to `from_bytes` are no signature.
#[derive(Debug, Clone, Copy, PartialEq, Eq)]
pub struct SignatureError {}

/// A signature over secp256r1: 64 bytes whose two halves are scalars in range.
#[derive(Debug, Clone, Copy, PartialEq, Eq)]
pub struct Secp256r1Signature {
    bytes: [u8; 64],
}

impl Secp256r1Signature {
    /// The number of bytes of a signature.
    pub const SIZE: usize = 64;

    #[verifier::type_invariant]
    spec fn accepted(self) -> bool {
        signature_accepted(self.bytes@)
    }

    /// The bytes of the signature.
    pub closed spec fn spec_bytes(self) -> Seq<u8> {
        self.bytes@
    }

    /// The bytes of the signature.
    pub fn to_bytes(&self) -> (r: [u8; 64])
        ensures
            r@ == self.spec_bytes(),
            signature_accepted(r@),
    {
        proof {
            use_type_invariant(self);
        }
        self.bytes
    }

    /// The signature with the given bytes, where they are one.
    pub fn from_bytes(bytes: [u8; 64]) -> (r: Result<Self, SignatureError>)
        ensures
            match r {
                Ok(s) => signature_accepted(bytes@) && s.spec_bytes() == bytes@,
                Err(_) => !signature_accepted(bytes@),
            },
    {
        if p256_accepts(&bytes) {
            Ok(Secp256r1Signature { bytes })
        } else {
            Err(SignatureError {  })
        }
    }

    /// Writes the signature as a VM node: the atom of its bytes.
    pub fn to_clvm(&self) -> (r: Node)
        ensures
            r@ == Tree::Atom(self.spec_bytes()),
    {
        Node::atom(self.bytes.as_slice())
    }

    /// Reads a signature from a VM value: an atom of 64 bytes that are a
    /// signature.
    pub open spec fn parse(t: Tree) -> Result<Seq<u8>, FromClvmError> {
        match parse_atom(t) {
            Err(e) => Err(e),
            Ok(bytes) => if bytes.len() != 64 {
                Err(wrong_length(64, bytes.len()))
            } else if !signature_accepted(bytes) {
                Err(FromClvmError::InvalidValue)
            } else {
                Ok(bytes)
            },
        }
    }

    /// Reads a signature from a VM node.
    pub fn from_clvm(node: &Node) -> (r: Result<Self, FromClvmError>)
        ensures
            match r {
                Ok(s) => Secp256r1Signature::parse(node@) == Ok::<Seq<u8>, FromClvmError>(
                    s.spec_bytes(),
                ),
                Err(e) => Secp256r1Signature::parse(node@) == Err::<Seq<u8>, FromClvmError>(e),
            },
    {
        let atom = match node.as_atom() {
            Err(e) => {
                return Err(e);
            },
            Ok(a) => a,
        };
        if atom.len() != 64 {
            return Err(FromClvmError::WrongAtomLength { expected: 64, found: atom.len() });
        }
        let mut bytes: [u8; 64] = [0u8; 64];
        let mut i: usize = 0;
        while i < 64
            invariant
                i <= 64,
                atom@.len() == 64,
                forall|j: int| 0 <= j < i ==> bytes@[j] == atom@[j],
            decreases 64 - i,
        {
            bytes[i] = atom[i];
            i += 1;
        }
        assert(bytes@ =~= atom@);
        match Self::from_bytes(bytes) {
            Ok(s) => Ok(s),
            Err(_) => Err(FromClvmError::InvalidValue),
        }
    }
}

} // verus!
