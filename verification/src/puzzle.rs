//! A puzzle as a layer sees it: a module curried with arguments, or a program
//! of no such shape.
use vstd::prelude::*;
use crate::bytes::Bytes32;
use crate::curry::{uncurried, uncurry};
use crate::error::DriverError;
use crate::node::{Node, Tree};

verus! {

/// A curried puzzle: the hash of its module, the whole puzzle and its
/// argument list.
#[derive(Debug, Clone, PartialEq, Eq)]
pub struct CurriedPuzzle {
    pub mod_hash: Bytes32,
    pub curried: Node,
    pub args: Node,
}

/// A puzzle that is not curried, with its hash.
#[derive(Debug, Clone, PartialEq, Eq)]
pub struct RawPuzzle {
    pub puzzle_hash: Bytes32,
    pub node: Node,
}

/// A parsed puzzle.
#[derive(Debug, Clone, PartialEq, Eq)]
pub enum Puzzle {
    Curried(CurriedPuzzle),
    Raw(RawPuzzle),
}

impl Puzzle {
    /// The program that the puzzle is.
    pub open spec fn tree(self) -> Tree {
        match self {
            Puzzle::Curried(c) => c.curried@,
            Puzzle::Raw(r) => r.node@,
        }
    }

    /// Whether the parts are those of the program: the module hash and the
    /// arguments are the ones the program is curried from, or the program is
    /// not curried and the hash is its own.
    pub open spec fn wf(self) -> bool {
        match self {
            Puzzle::Curried(c) => match uncurried(c.curried@) {
                Some((module, args)) => c.mod_hash == module.tree_hash() && c.args@ == args,
                None => false,
            },
            Puzzle::Raw(r) => uncurried(r.node@) is None && r.puzzle_hash == r.node@.tree_hash(),
        }
    }

    /// Parses a program: curried where it has the shape of a curried
    /// program, raw where it has not.
    pub fn parse(node: &Node) -> (r: Puzzle)
        ensures
            r.tree() == node@,
            r.wf(),
            r is Curried <==> uncurried(node@) is Some,
    {
        match uncurry(node) {
            Some((module, args)) => Puzzle::Curried(
                CurriedPuzzle {
                    mod_hash: module.tree_hash(),
                    curried: node.clone(),
                    args: args.clone(),
                },
            ),
            None => Puzzle::Raw(RawPuzzle { puzzle_hash: node.tree_hash(), node: node.clone() }),
        }
    }

    /// Whether the puzzle is curried.
    pub fn is_curried(&self) -> (r: bool)
        ensures
            r == (self is Curried),
    {
        match self {
            Puzzle::Curried(_) => true,
            Puzzle::Raw(_) => false,
        }
    }

    /// The hash by which a layer tells the puzzle: the hash of the module of
    /// a curried puzzle, the hash of a raw puzzle itself.
    pub fn mod_hash(&self) -> (r: Bytes32)
        ensures
            r == (match self {
                Puzzle::Curried(c) => c.mod_hash,
                Puzzle::Raw(raw) => raw.puzzle_hash,
            }),
    {
        match self {
            Puzzle::Curried(c) => c.mod_hash,
            Puzzle::Raw(raw) => raw.puzzle_hash,
        }
    }

    /// The curried form, which a layer needs: a puzzle that is not curried is
    /// no layer.
    pub fn as_curried(&self) -> (r: Result<&CurriedPuzzle, DriverError>)
        ensures
            match r {
                Ok(c) => *self == Puzzle::Curried(*c),
                Err(e) => self is Raw && e == DriverError::NonStandardLayer,
            },
    {
        match self {
            Puzzle::Curried(c) => Ok(c),
            Puzzle::Raw(_) => Err(DriverError::NonStandardLayer),
        }
    }

    /// The program that the puzzle is.
    pub fn node(&self) -> (r: &Node)
        ensures
            r@ == self.tree(),
    {
        match self {
            Puzzle::Curried(c) => &c.curried,
            Puzzle::Raw(raw) => &raw.node,
        }
    }

    /// The hash of the puzzle.
    pub fn tree_hash(&self) -> (r: Bytes32)
        ensures
            r == self.tree().tree_hash(),
    {
        self.node().tree_hash()
    }
}

} // verus!
