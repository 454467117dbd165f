//! Consensus engine boundary: sealing policy, seal generation and seal
//! validation, reduced to the capabilities the authoring core consults.

use vstd::prelude::*;
use crate::block::{ClosedBlock, Header, SealedBlock, mix2_spec, mix2};
use crate::types::clone_vec;

verus! {

/// A seal produced by the engine.
#[derive(Debug)]
pub enum Seal {
    /// A proposal to be broadcast and submitted later.
    Proposal(Vec<Vec<u8>>),
    /// A regular seal; the block can be imported at once.
    Regular(Vec<Vec<u8>>),
    /// The engine declines to seal right now.
    NoSeal,
}

/// Engine parameters the authoring core reads.
#[derive(Clone, Copy, Debug, PartialEq, Eq, Structural)]
pub struct EngineParams {
    /// First block number at which the nonce cap applies.
    pub dust_protection_transition: u64,
    /// Nonce cap per block number once dust protection is active.
    pub nonce_cap_increment: u64,
    /// Whether the chain parameters carry a bug-fix hard fork that should
    /// be on by default.
    pub bugfix_hard_fork: bool,
}

impl Default for EngineParams {
    /// Dust protection off, the customary nonce-cap increment, no bug-fix
    /// hard forks.
    fn default() -> (r: Self)
        ensures
            r.dust_protection_transition == u64::MAX,
            r.nonce_cap_increment == 64,
            !r.bugfix_hard_fork,
    {
        EngineParams {
            dust_protection_transition: u64::MAX,
            nonce_cap_increment: 64,
            bugfix_hard_fork: false,
        }
    }
}

/// The sealing discipline of an engine.
#[derive(Clone, Copy, Debug, PartialEq, Eq, Structural)]
pub enum EngineKind {
    /// Seals are produced by external workers (proof of work).
    WorkEngine,
    /// The engine seals by itself as soon as a block has transactions.
    InstantEngine,
    /// The engine seals internally but is not willing right now.
    RefusingEngine,
    /// The engine seals internally by issuing proposals.
    ProposalEngine,
}

/// The signer registered with an engine.
#[derive(Clone, Copy, Debug, PartialEq, Eq, Structural)]
pub struct Signer {
    /// Address of the signing account.
    pub address: u64,
    /// Password that unlocks it.
    pub password: u64,
}

/// A consensus engine: its discipline, its parameters and its signer.
#[derive(Clone, Copy, Debug, PartialEq, Eq, Structural)]
pub struct Engine {
    /// The sealing discipline.
    pub kind: EngineKind,
    /// Engine parameters.
    pub params: EngineParams,
    /// The signer registered with the engine, if any.
    pub signer: Option<Signer>,
}

/// The internal-sealing answer of each discipline.
pub open spec fn seals_internally_spec(kind: EngineKind) -> Option<bool> {
    match kind {
        EngineKind::WorkEngine => None,
        EngineKind::InstantEngine => Some(true),
        EngineKind::RefusingEngine => Some(false),
        EngineKind::ProposalEngine => Some(true),
    }
}

/// Address of a contract created by `sender` at `nonce`.
pub open spec fn contract_address_spec(sender: u64, nonce: u64) -> u64 {
    mix2_spec(mix2_spec(sender, nonce), 2)
}

/// Computes `contract_address_spec`.
pub fn contract_address(sender: u64, nonce: u64) -> (r: u64)
    ensures
        r == contract_address_spec(sender, nonce),
{
    mix2(mix2(sender, nonce), 2)
}

impl Engine {
    /// An engine of the given discipline with default parameters and no
    /// signer.
    pub fn new(kind: EngineKind) -> (r: Engine)
        ensures
            r.kind == kind,
            r.params == (EngineParams {
                dust_protection_transition: u64::MAX,
                nonce_cap_increment: 64,
                bugfix_hard_fork: false,
            }),
            r.signer.is_none(),
    {
        Engine { kind, params: EngineParams::default(), signer: None }
    }

    /// `None` means external work; `Some` means internal sealing, willing
    /// or not right now.
    pub fn seals_internally(&self) -> (r: Option<bool>)
        ensures
            r == seals_internally_spec(self.kind),
    {
        match self.kind {
            EngineKind::WorkEngine => None,
            EngineKind::InstantEngine => Some(true),
            EngineKind::RefusingEngine => Some(false),
            EngineKind::ProposalEngine => Some(true),
        }
    }

    /// The engine parameters.
    pub fn engine_params(&self) -> (r: EngineParams)
        ensures
            r == self.params,
    {
        self.params
    }

    /// Registers the signer the engine seals with.
    pub fn set_signer(&mut self, address: u64, password: u64)
        ensures
            final(self).signer == Some(Signer { address, password }),
            final(self).kind == old(self).kind,
            final(self).params == old(self).params,
    {
        self.signer = Some(Signer { address, password });
    }

    /// Number of fields a valid seal carries for this engine.
    pub open spec fn seal_fields(self) -> int {
        0
    }

    /// Asks the engine for a seal. An instant engine seals any block with
    /// transactions; a proposal engine always proposes; other disciplines
    /// decline.
    pub fn generate_seal(&self, block: &ClosedBlock, _parent: &Header) -> (r: Seal)
        ensures
            match self.kind {
                EngineKind::InstantEngine => if block.transactions@.len() > 0 {
                    r matches Seal::Regular(s) && s@.len() == 0
                } else {
                    r matches Seal::NoSeal
                },
                EngineKind::ProposalEngine => r matches Seal::Proposal(s) && s@.len() == 0,
                EngineKind::WorkEngine => r matches Seal::NoSeal,
                EngineKind::RefusingEngine => r matches Seal::NoSeal,
            },
    {
        match self.kind {
            EngineKind::InstantEngine => {
                if block.transactions.len() > 0 {
                    Seal::Regular(Vec::new())
                } else {
                    Seal::NoSeal
                }
            },
            EngineKind::ProposalEngine => Seal::Proposal(Vec::new()),
            EngineKind::WorkEngine => Seal::NoSeal,
            EngineKind::RefusingEngine => Seal::NoSeal,
        }
    }

    /// Validates a seal and attaches it to the candidate: succeeds exactly
    /// when the seal has the field count this engine expects.
    pub fn try_seal(&self, block: &ClosedBlock, seal: Vec<Vec<u8>>) -> (r: Result<SealedBlock, ()>)
        ensures
            match r {
                Ok(sb) => {
                    &&& seal@.len() == self.seal_fields()
                    &&& sb.header@ == block.header@
                    &&& sb.transactions@ == block.transactions@
                    &&& sb.seal@ == seal@
                },
                Err(_) => seal@.len() != self.seal_fields(),
            },
    {
        if seal.len() != 0 {
            return Err(());
        }
        Ok(SealedBlock {
            header: block.header.duplicate(),
            transactions: clone_vec(&block.transactions),
            seal,
        })
    }
}

/// A chain specification: the engine it runs and the chain id.
#[derive(Clone, Copy, Debug, PartialEq, Eq, Structural)]
pub struct ChainSpec {
    /// The consensus engine.
    pub engine: Engine,
    /// The chain id transactions are signed for.
    pub chain_id: u64,
}

impl ChainSpec {
    /// A test chain sealed by external work.
    pub fn new_test() -> (r: ChainSpec)
        ensures
            r.engine.kind == EngineKind::WorkEngine,
            r.engine.params == (EngineParams {
                dust_protection_transition: u64::MAX,
                nonce_cap_increment: 64,
                bugfix_hard_fork: false,
            }),
            r.engine.signer.is_none(),
            r.chain_id == 2,
    {
        ChainSpec { engine: Engine::new(EngineKind::WorkEngine), chain_id: 2 }
    }

    /// A test chain whose engine seals instantly.
    pub fn new_instant() -> (r: ChainSpec)
        ensures
            r.engine.kind == EngineKind::InstantEngine,
            r.engine.params == (EngineParams {
                dust_protection_transition: u64::MAX,
                nonce_cap_increment: 64,
                bugfix_hard_fork: false,
            }),
            r.engine.signer.is_none(),
            r.chain_id == 2,
    {
        ChainSpec { engine: Engine::new(EngineKind::InstantEngine), chain_id: 2 }
    }

    /// The chain id.
    pub fn spec_chain_id(&self) -> (r: u64)
        ensures
            r == self.chain_id,
    {
        self.chain_id
    }
}

} // verus!
