//! The engine state that mutations draw from and snapshots carry.
use vstd::prelude::*;
use crate::corpus::InMemoryCorpus;
use crate::mutations::{context_of, MutationContext};
use crate::rand::Rand;

verus! {

/// The maximum input size of a fresh state.
pub const DEFAULT_MAX_SIZE: usize = 1048576;

/// The engine state: the generator, the corpus and the solutions found, the
/// token dictionary, the maximum input size, and the number of executions.
pub struct State<R: Rand> {
    pub rand: R,
    pub corpus: InMemoryCorpus,
    pub solutions: InMemoryCorpus,
    pub tokens: Vec<Vec<u8>>,
    pub max_size: usize,
    pub executions: u64,
}

impl<R: Rand> State<R> {
    /// The side inputs that mutations read from this state.
    pub open spec fn context(&self) -> MutationContext {
        context_of(self.corpus, self.tokens@, self.max_size)
    }

    /// Whether `other` differs from this state in its generator alone.
    pub open spec fn same_but_rand(&self, other: State<R>) -> bool {
        &&& self.corpus == other.corpus
        &&& self.solutions == other.solutions
        &&& self.tokens == other.tokens
        &&& self.max_size == other.max_size
        &&& self.executions == other.executions
    }

    /// A state with no tokens, no executions and the default maximum size.
    pub fn new(rand: R, corpus: InMemoryCorpus, solutions: InMemoryCorpus) -> (r: State<R>)
        ensures
            r.rand == rand,
            r.corpus == corpus,
            r.solutions == solutions,
            r.tokens@.len() == 0,
            r.max_size == DEFAULT_MAX_SIZE,
            r.executions == 0,
    {
        State { rand, corpus, solutions, tokens: Vec::new(), max_size: DEFAULT_MAX_SIZE, executions: 0 }
    }

    /// The maximum input size.
    pub fn max_size(&self) -> (r: usize)
        ensures
            r == self.max_size,
    {
        self.max_size
    }

    /// Sets the maximum input size.
    pub fn set_max_size(&mut self, max_size: usize)
        ensures
            *final(self) == (State { max_size, ..*old(self) }),
    {
        self.max_size = max_size;
    }

    /// Adds a token to the dictionary.
    pub fn add_token(&mut self, token: Vec<u8>)
        ensures
            final(self).tokens@ == old(self).tokens@.push(token),
            final(self).rand == old(self).rand,
            final(self).corpus == old(self).corpus,
            final(self).solutions == old(self).solutions,
            final(self).max_size == old(self).max_size,
            final(self).executions == old(self).executions,
    {
        self.tokens.push(token);
    }
}

} // verus!
