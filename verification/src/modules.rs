//! The well-known programs that the layers are curried from.
//!
//! A module is a program together with its hash. The library never takes a
//! hash on trust: it computes it from the program.
use vstd::prelude::*;
use crate::bytes::Bytes32;
use crate::error::DriverError;
use crate::node::Node;
use crate::vm::{deserialized, node_from_bytes};

verus! {

/// A program and its hash.
#[derive(Debug, Clone, PartialEq, Eq)]
pub struct Module {
    pub program: Node,
    pub hash: Bytes32,
}

impl Module {
    /// Whether the hash is the hash of the program.
    pub open spec fn wf(&self) -> bool {
        self.hash == self.program@.tree_hash()
    }

    /// The module of a program.
    pub fn new(program: Node) -> (r: Module)
        ensures
            r.program == program,
            r.wf(),
    {
        let hash = program.tree_hash();
        Module { program, hash }
    }
}

/// The hash of the singleton top layer.
pub const SINGLETON_TOP_LAYER_PUZZLE_HASH: [u8; 32] = [
    0x7f, 0xaa, 0x32, 0x53, 0xbf, 0xdd, 0xd1, 0xe0,
    0xde, 0xcb, 0x09, 0x06, 0xb2, 0xdc, 0x62, 0x47,
    0xbb, 0xc4, 0xcf, 0x60, 0x8f, 0x58, 0x34, 0x5d,
    0x17, 0x3a, 0xdb, 0x63, 0xe8, 0xb4, 0x7c, 0x9f,
];

/// The hash of the singleton launcher.
pub const SINGLETON_LAUNCHER_PUZZLE_HASH: [u8; 32] = [
    0xef, 0xf0, 0x75, 0x22, 0x49, 0x50, 0x60, 0xc0,
    0x66, 0xf6, 0x6f, 0x32, 0xac, 0xc2, 0xa7, 0x7e,
    0x3a, 0x3e, 0x73, 0x7a, 0xca, 0x8b, 0xae, 0xa4,
    0xd1, 0xa6, 0x4e, 0xa4, 0xcd, 0xc1, 0x3d, 0xa9,
];

/// The hash of the state layer.
pub const NFT_STATE_LAYER_PUZZLE_HASH: [u8; 32] = [
    0xa0, 0x4d, 0x9f, 0x57, 0x76, 0x4f, 0x54, 0xa4,
    0x3e, 0x40, 0x30, 0xbe, 0xfb, 0x4d, 0x80, 0x02,
    0x6e, 0x87, 0x05, 0x19, 0xaa, 0xa6, 0x63, 0x34,
    0xae, 0xf8, 0x30, 0x4f, 0x5d, 0x03, 0x93, 0xc2,
];

/// The hash of the CAT layer.
pub const CAT_PUZZLE_HASH: [u8; 32] = [
    0x37, 0xbe, 0xf3, 0x60, 0xee, 0x85, 0x81, 0x33,
    0xb6, 0x9d, 0x59, 0x5a, 0x90, 0x6d, 0xc4, 0x5d,
    0x01, 0xaf, 0x50, 0x37, 0x9d, 0xad, 0x51, 0x5e,
    0xb9, 0x51, 0x8a, 0xbb, 0x7c, 0x1d, 0x2a, 0x7a,
];

/// The hash of the standard puzzle.
pub const STANDARD_PUZZLE_HASH: [u8; 32] = [
    0xe9, 0xaa, 0xa4, 0x9f, 0x45, 0xba, 0xd5, 0xc8,
    0x89, 0xb8, 0x6e, 0xe3, 0x34, 0x15, 0x50, 0xc1,
    0x55, 0xcf, 0xdd, 0x10, 0xc3, 0xa6, 0x75, 0x7d,
    0xe6, 0x18, 0xd2, 0x06, 0x12, 0xff, 0xfd, 0x52,
];

/// The hash of the NFT ownership layer.
pub const NFT_OWNERSHIP_LAYER_PUZZLE_HASH: [u8; 32] = [
    0xc5, 0xab, 0xea, 0x79, 0xaf, 0xaa, 0x00, 0x1b,
    0x54, 0x27, 0xdf, 0xa0, 0xc8, 0xcf, 0x42, 0xca,
    0x6f, 0x38, 0xf5, 0x84, 0x1b, 0x78, 0xf9, 0xb3,
    0xc2, 0x52, 0x73, 0x3e, 0xb2, 0xde, 0x27, 0x26,
];

/// The hash of the royalty transfer program.
pub const NFT_ROYALTY_TRANSFER_PUZZLE_HASH: [u8; 32] = [
    0x02, 0x5d, 0xee, 0x0f, 0xb1, 0xe9, 0xfa, 0x11,
    0x03, 0x02, 0xa7, 0xe9, 0xbf, 0xb6, 0xe3, 0x81,
    0xca, 0x09, 0x61, 0x8e, 0x27, 0x78, 0xb0, 0x18,
    0x4f, 0xa5, 0xc6, 0xb2, 0x75, 0xcf, 0xce, 0x1f,
];

/// The modules that the drivers use.
#[derive(Debug, Clone, PartialEq, Eq)]
pub struct Modules {
    /// The singleton top layer.
    pub singleton_top_layer: Module,
    /// The launcher that creates the first coin of a singleton.
    pub singleton_launcher: Module,
    /// The layer that holds metadata.
    pub nft_state_layer: Module,
    /// The layer that holds the asset id of a CAT.
    pub cat: Module,
    /// The puzzle that lets the holder of a key spend a coin.
    pub standard_p2: Module,
    /// The layer that holds the owner of an NFT.
    pub nft_ownership_layer: Module,
    /// The transfer program that pays royalties.
    pub nft_royalty_transfer: Module,
    /// The layer that lets delegated puzzles spend a data store.
    pub delegation_layer: Module,
    /// The wrapper around a puzzle that may change the metadata of a store.
    pub writer_filter: Module,
    /// The puzzle that has a store announce itself for a fee.
    pub oracle: Module,
    /// The hash of the metadata updater of data stores.
    pub dl_metadata_updater_hash: Bytes32,
}

/// The serialized singleton top layer, `chia_puzzles::singleton::SINGLETON_TOP_LAYER_PUZZLE`.
#[verifier::external_body]
fn singleton_top_layer_bytes() -> (r: Vec<u8>) {
    chia_puzzles::singleton::SINGLETON_TOP_LAYER_PUZZLE.to_vec()
}

/// The serialized launcher, `chia_puzzles::singleton::SINGLETON_LAUNCHER_PUZZLE`.
#[verifier::external_body]
fn singleton_launcher_bytes() -> (r: Vec<u8>) {
    chia_puzzles::singleton::SINGLETON_LAUNCHER_PUZZLE.to_vec()
}

/// The serialized state layer, `chia_puzzles::nft::NFT_STATE_LAYER_PUZZLE`.
#[verifier::external_body]
fn nft_state_layer_bytes() -> (r: Vec<u8>) {
    chia_puzzles::nft::NFT_STATE_LAYER_PUZZLE.to_vec()
}

/// The serialized CAT layer, `chia_puzzles::cat::CAT_PUZZLE`.
#[verifier::external_body]
fn cat_bytes() -> (r: Vec<u8>) {
    chia_puzzles::cat::CAT_PUZZLE.to_vec()
}

/// The serialized standard puzzle, `chia_puzzles::standard::STANDARD_PUZZLE`.
#[verifier::external_body]
fn standard_p2_bytes() -> (r: Vec<u8>) {
    chia_puzzles::standard::STANDARD_PUZZLE.to_vec()
}

/// The serialized ownership layer, `chia_puzzles::nft::NFT_OWNERSHIP_LAYER_PUZZLE`.
#[verifier::external_body]
fn nft_ownership_layer_bytes() -> (r: Vec<u8>) {
    chia_puzzles::nft::NFT_OWNERSHIP_LAYER_PUZZLE.to_vec()
}

/// The serialized royalty transfer program, `chia_puzzles::nft::NFT_ROYALTY_TRANSFER_PUZZLE`.
#[verifier::external_body]
fn nft_royalty_transfer_bytes() -> (r: Vec<u8>) {
    chia_puzzles::nft::NFT_ROYALTY_TRANSFER_PUZZLE.to_vec()
}

/// Reads a serialized program and hashes it.
fn load_module(bytes: &Vec<u8>) -> (r: Result<Module, DriverError>)
    ensures
        match r {
            Ok(m) => m.program@ == deserialized(bytes@) && m.wf(),
            Err(e) => e == DriverError::Vm,
        },
{
    match node_from_bytes(bytes.as_slice()) {
        Ok(program) => Ok(Module::new(program)),
        Err(e) => Err(e),
    }
}

/// Reads a serialized program, hashes it and holds the hash against the one
/// that is expected of it. A program that the VM reads and that hashes to
/// something else is `LayerMismatch`.
pub fn load_known(bytes: &Vec<u8>, expected: &[u8; 32]) -> (r: Result<Module, DriverError>)
    ensures
        match r {
            Ok(m) => m.program@ == deserialized(bytes@) && m.wf() && m.hash@ == expected@,
            Err(DriverError::LayerMismatch) => deserialized(bytes@).tree_hash()@ != expected@,
            Err(e) => e == DriverError::Vm,
        },
{
    let module = match load_module(bytes) {
        Ok(m) => m,
        Err(e) => {
            return Err(e);
        },
    };
    if module.hash == Bytes32::new(*expected) {
        Ok(module)
    } else {
        proof {
            if module.hash@ == expected@ {
                assert(module.hash.bytes =~= *expected);
            }
        }
        Err(DriverError::LayerMismatch)
    }
}

/// The programs of the data layer, which the caller supplies.
#[derive(Debug, Clone, PartialEq, Eq)]
pub struct DataLayerPrograms {
    /// The layer that lets delegated puzzles spend a data store.
    pub delegation_layer: Node,
    /// The wrapper around a puzzle that may change the metadata of a store.
    pub writer_filter: Node,
    /// The puzzle that has a store announce itself for a fee.
    pub oracle: Node,
    /// The hash of the metadata updater of data stores.
    pub dl_metadata_updater_hash: Bytes32,
}

impl Modules {
    /// Whether every hash is the hash of its program.
    pub open spec fn wf(&self) -> bool {
        &&& self.singleton_top_layer.wf()
        &&& self.singleton_launcher.wf()
        &&& self.nft_state_layer.wf()
        &&& self.cat.wf()
        &&& self.standard_p2.wf()
        &&& self.nft_ownership_layer.wf()
        &&& self.nft_royalty_transfer.wf()
        &&& self.delegation_layer.wf()
        &&& self.writer_filter.wf()
        &&& self.oracle.wf()
    }

    /// Whether the standard programs have the hashes by which they are known.
    pub open spec fn well_known(&self) -> bool {
        &&& self.singleton_top_layer.hash@ == SINGLETON_TOP_LAYER_PUZZLE_HASH@
        &&& self.singleton_launcher.hash@ == SINGLETON_LAUNCHER_PUZZLE_HASH@
        &&& self.nft_state_layer.hash@ == NFT_STATE_LAYER_PUZZLE_HASH@
        &&& self.cat.hash@ == CAT_PUZZLE_HASH@
        &&& self.standard_p2.hash@ == STANDARD_PUZZLE_HASH@
        &&& self.nft_ownership_layer.hash@ == NFT_OWNERSHIP_LAYER_PUZZLE_HASH@
        &&& self.nft_royalty_transfer.hash@ == NFT_ROYALTY_TRANSFER_PUZZLE_HASH@
    }

    /// The standard singleton, launcher, state layer, CAT, key and NFT
    /// programs, each held against its well-known hash, with the given
    /// programs of the data layer. A standard program that does not hash to
    /// its well-known hash is `LayerMismatch`.
    pub fn standard(datalayer: DataLayerPrograms) -> (r: Result<Modules, DriverError>)
        ensures
            match r {
                Ok(m) => {
                    &&& m.wf()
                    &&& m.well_known()
                    &&& m.delegation_layer.program == datalayer.delegation_layer
                    &&& m.writer_filter.program == datalayer.writer_filter
                    &&& m.oracle.program == datalayer.oracle
                    &&& m.dl_metadata_updater_hash == datalayer.dl_metadata_updater_hash
                },
                Err(e) => e == DriverError::Vm || e == DriverError::LayerMismatch,
            },
    {
        let singleton_top_layer = match load_known(
            &singleton_top_layer_bytes(),
            &SINGLETON_TOP_LAYER_PUZZLE_HASH,
        ) {
            Ok(m) => m,
            Err(e) => {
                return Err(e);
            },
        };
        let singleton_launcher = match load_known(
            &singleton_launcher_bytes(),
            &SINGLETON_LAUNCHER_PUZZLE_HASH,
        ) {
            Ok(m) => m,
            Err(e) => {
                return Err(e);
            },
        };
        let nft_state_layer = match load_known(
            &nft_state_layer_bytes(),
            &NFT_STATE_LAYER_PUZZLE_HASH,
        ) {
            Ok(m) => m,
            Err(e) => {
                return Err(e);
            },
        };
        let cat = match load_known(&cat_bytes(), &CAT_PUZZLE_HASH) {
            Ok(m) => m,
            Err(e) => {
                return Err(e);
            },
        };
        let standard_p2 = match load_known(&standard_p2_bytes(), &STANDARD_PUZZLE_HASH) {
            Ok(m) => m,
            Err(e) => {
                return Err(e);
            },
        };
        let nft_ownership_layer = match load_known(
            &nft_ownership_layer_bytes(),
            &NFT_OWNERSHIP_LAYER_PUZZLE_HASH,
        ) {
            Ok(m) => m,
            Err(e) => {
                return Err(e);
            },
        };
        let nft_royalty_transfer = match load_known(
            &nft_royalty_transfer_bytes(),
            &NFT_ROYALTY_TRANSFER_PUZZLE_HASH,
        ) {
            Ok(m) => m,
            Err(e) => {
                return Err(e);
            },
        };
        let DataLayerPrograms { delegation_layer, writer_filter, oracle, dl_metadata_updater_hash } =
            datalayer;
        Ok(
            Modules {
                singleton_top_layer,
                singleton_launcher,
                nft_state_layer,
                cat,
                standard_p2,
                nft_ownership_layer,
                nft_royalty_transfer,
                delegation_layer: Module::new(delegation_layer),
                writer_filter: Module::new(writer_filter),
                oracle: Module::new(oracle),
                dl_metadata_updater_hash,
            },
        )
    }
}

} // verus!
