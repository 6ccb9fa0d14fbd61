use vstd::prelude::*;

use crate::registry::{supported_chains, supported_seq, lemma_supported_in_seq, BlockchainType};

verus! {

/// The chain module registered for one supported blockchain: the entry point of
/// that chain's intent, build, sign, message-signing and utility pipeline.
#[derive(Copy, Clone, Debug, PartialEq, Eq, Structural)]
pub struct ChainModule {
    chain: BlockchainType,
}

impl ChainModule {
    /// The identity this module serves.
    pub closed spec fn identity(self) -> BlockchainType {
        self.chain
    }

    /// The identity this module serves.
    pub fn chain(&self) -> (r: BlockchainType)
        ensures
            r == self.identity(),
    {
        self.chain
    }
}

/// The request named a chain that has no module: either `Unsupported` or an
/// identity that was never registered.
#[derive(Copy, Clone, Debug, PartialEq, Eq, Structural)]
pub struct UnsupportedChainError {
    pub chain: BlockchainType,
}

/// The table from identity to chain module. It is built once by
/// [`Dispatcher::new`] and read only afterwards.
pub struct Dispatcher {
    modules: Vec<ChainModule>,
}

impl Dispatcher {
    /// One module per supported identity, in registration order.
    #[verifier::type_invariant]
    spec fn inv(self) -> bool {
        &&& self.modules@.len() == supported_seq().len()
        &&& forall|j: int|
            0 <= j < self.modules@.len() ==> #[trigger] self.modules@[j].chain == supported_seq()[j]
    }

    /// Registers a module for every supported identity.
    pub fn new() -> (r: Dispatcher) {
        let chains = supported_chains();
        let mut modules: Vec<ChainModule> = Vec::new();
        let mut i: usize = 0;
        while i < chains.len()
            invariant
                chains@ == supported_seq(),
                0 <= i <= chains@.len(),
                modules@.len() == i,
                forall|j: int| 0 <= j < i ==> #[trigger] modules@[j].chain == chains@[j],
            decreases chains@.len() - i,
        {
            modules.push(ChainModule { chain: chains[i] });
            i = i + 1;
        }
        Dispatcher { modules }
    }

    /// The module registered for `id`. Fails with [`UnsupportedChainError`]
    /// exactly when `id` is not supported; a supported identity always has a
    /// module, and the module serves that identity.
    pub fn module_for(&self, id: BlockchainType) -> (r: Result<ChainModule, UnsupportedChainError>)
        ensures
            match r {
                Ok(m) => id.supported() && m.identity() == id,
                Err(e) => !id.supported() && e == (UnsupportedChainError { chain: id }),
            },
    {
        proof {
            use_type_invariant(self);
        }
        if !id.is_supported() {
            return Err(UnsupportedChainError { chain: id });
        }
        let mut i: usize = 0;
        while i < self.modules.len()
            invariant
                0 <= i <= self.modules@.len(),
                self.modules@.len() == supported_seq().len(),
                forall|j: int|
                    0 <= j < self.modules@.len() ==> #[trigger] self.modules@[j].chain
                        == supported_seq()[j],
                forall|j: int| 0 <= j < i ==> #[trigger] self.modules@[j].chain != id,
            decreases self.modules@.len() - i,
        {
            let m = self.modules[i];
            if m.chain == id {
                return Ok(m);
            }
            i = i + 1;
        }
        proof {
            lemma_supported_in_seq(id);
            assert(self.modules@[id.position()].chain == id);
        }
        Err(UnsupportedChainError { chain: id })
    }
}

} // verus!
