//! The request for a proof, the response to it, and what a client keeps of a
//! peer between the two.

use crate::header::{Header, HeaderDigest, VerifiableHeader, VerifiableHeaderWithChainRoot};
use crate::u256::U256;
use vstd::prelude::*;

verus! {

/// A request for sampled blocks.
#[derive(Clone, Debug, PartialEq, Eq)]
pub struct GetBlockSamples {
    /// The number of the first of the last blocks asked for.
    pub start_number: u64,
    /// The total difficulty at which the last blocks begin.
    pub difficulty_boundary: U256,
    /// The total difficulties to sample at, in ascending order.
    pub difficulties: Vec<U256>,
}

/// The response to a request for sampled blocks.
#[derive(Clone, Debug, PartialEq, Eq)]
pub struct SendBlockSamples {
    /// The chain root of the chain that the response proves.
    pub root: HeaderDigest,
    /// The proof that all headers of the response belong to that chain.
    pub proof: Vec<HeaderDigest>,
    /// The last blocks before the start block, where the chain was
    /// reorganised.
    pub reorg_last_n_headers: Vec<VerifiableHeaderWithChainRoot>,
    /// The blocks sampled at the difficulties asked for.
    pub sampled_headers: Vec<VerifiableHeaderWithChainRoot>,
    /// The last blocks of the chain.
    pub last_n_headers: Vec<VerifiableHeaderWithChainRoot>,
}

/// The head of a chain, as a peer claims it.
#[derive(Clone, Debug, PartialEq, Eq)]
pub struct LastState {
    pub tip_header: VerifiableHeader,
    pub total_difficulty: U256,
}

/// A request that waits for its response.
#[derive(Clone, Debug, PartialEq, Eq)]
pub struct ProveRequest {
    /// The head of the chain that the peer is to prove.
    pub last_state: LastState,
    /// What was asked of the peer.
    pub request: GetBlockSamples,
    /// Set once a response failed the bound on the change of the epoch
    /// difficulty: the next response is not held to it.
    pub skip_check_tau: bool,
}

/// What is kept of a peer whose proof was accepted: the request that the
/// proof answered, and the headers at the end of the proved chain.
#[derive(Clone, Debug, PartialEq, Eq)]
pub struct ProveState {
    pub request: ProveRequest,
    pub reorg_last_n_headers: Vec<Header>,
    pub last_n_headers: Vec<Header>,
}

impl LastState {
    /// The head of a chain with its total difficulty.
    pub fn new(tip_header: VerifiableHeader, total_difficulty: U256) -> (r: Self)
        ensures
            r.tip_header == tip_header,
            r.total_difficulty == total_difficulty,
    {
        LastState { tip_header, total_difficulty }
    }
}

impl ProveRequest {
    /// A request that is held to every check.
    pub fn new(last_state: LastState, request: GetBlockSamples) -> (r: Self)
        ensures
            r.last_state == last_state,
            r.request == request,
            !r.skip_check_tau,
    {
        ProveRequest { last_state, request, skip_check_tau: false }
    }

    /// The header of the head of the chain to prove.
    pub fn get_last_header(&self) -> (r: &VerifiableHeader)
        ensures
            *r == self.last_state.tip_header,
    {
        &self.last_state.tip_header
    }

    /// The total difficulty of the chain to prove.
    pub fn get_total_difficulty(&self) -> (r: &U256)
        ensures
            *r == self.last_state.total_difficulty,
    {
        &self.last_state.total_difficulty
    }

    /// What was asked of the peer.
    pub fn get_request(&self) -> (r: &GetBlockSamples)
        ensures
            *r == self.request,
    {
        &self.request
    }

    /// Whether the response is not held to the bound on the change of the
    /// epoch difficulty.
    pub fn if_skip_check_tau(&self) -> (r: bool)
        ensures
            r == self.skip_check_tau,
    {
        self.skip_check_tau
    }

    /// Frees the response from the bound on the change of the epoch
    /// difficulty.
    pub fn skip_check_tau(&mut self)
        ensures
            final(self).skip_check_tau,
            final(self).last_state == old(self).last_state,
            final(self).request == old(self).request,
    {
        self.skip_check_tau = true;
    }
}

impl ProveState {
    /// What is kept of a peer whose response to `request` was accepted.
    pub fn new_from_request(
        request: ProveRequest,
        reorg_last_n_headers: Vec<Header>,
        last_n_headers: Vec<Header>,
    ) -> (r: Self)
        ensures
            r.request == request,
            r.reorg_last_n_headers == reorg_last_n_headers,
            r.last_n_headers == last_n_headers,
    {
        ProveState { request, reorg_last_n_headers, last_n_headers }
    }

    /// The header of the head of the proved chain.
    pub fn get_last_header(&self) -> (r: &VerifiableHeader)
        ensures
            *r == self.request.last_state.tip_header,
    {
        &self.request.last_state.tip_header
    }

    /// The total difficulty of the proved chain.
    pub fn get_total_difficulty(&self) -> (r: &U256)
        ensures
            *r == self.request.last_state.total_difficulty,
    {
        &self.request.last_state.total_difficulty
    }
}

} // verus!
