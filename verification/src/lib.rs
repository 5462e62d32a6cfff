//! Drivers for coin primitives: conditions, puzzle layers, the Merkle tree of
//! delegated puzzles, and the CAT, data store and NFT primitives built from
//! them.
//!
//! A primitive is read from the spend of its parent (`from_spend`) and spent
//! into its child (`spend`). Values of the script VM are held as trees
//! ([`node::Node`]); the VM itself runs, reads and writes them ([`vm`]).
pub mod bytes;
pub mod cat;
pub mod cat_layer;
pub mod codec;
pub mod coin;
pub mod condition;
pub mod conditions;
pub mod curry;
pub mod datalayer;
pub mod datastore;
pub mod datastore_child;
pub mod datastore_launch;
pub mod delegated_layers;
pub mod delegation_layer;
pub mod error;
pub mod from_spend;
pub mod launcher;
pub mod layer;
pub mod merkle;
pub mod metadata;
pub mod modules;
pub mod nft;
pub mod nft_child;
pub mod nft_launcher;
pub mod nft_layers;
pub mod node;
pub mod number;
pub mod puzzle;
pub mod secp;
pub mod sha;
pub mod singleton_layer;
pub mod spend_context;
pub mod spend_laws;
pub mod state_layer;
pub mod vm;
