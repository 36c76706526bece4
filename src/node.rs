//! Chains a node can run, and the trivial proof of work used on development chains.
use vstd::prelude::*;

verus! {

/// The chains a node can join.
#[derive(Clone, Copy, Debug, PartialEq, Eq, Structural)]
pub enum Chain {
    /// An isolated development chain.
    Dev,
    /// A development network run on one machine.
    DevnetLocal,
    /// The public development network.
    Devnet,
}

/// A proof of work that every seal passes, at difficulty one.
#[derive(Clone, Copy, Debug)]
pub struct DummyPow;

impl DummyPow {
    /// The difficulty of every block.
    pub fn difficulty(&self) -> (r: u128)
        ensures
            r == 1,
    {
        1
    }

    /// Every seal is accepted.
    pub fn verify(&self) -> (r: bool)
        ensures
            r,
    {
        true
    }
}

} // verus!
