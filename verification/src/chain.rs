//! Chain client boundary: the read-only chain tip plus the block building
//! and import primitives the authoring core calls, as an in-memory chain.

use vstd::prelude::*;
use crate::types::{Transaction, PushError, Error, clone_vec};
use crate::block::{Header, HeaderV, OpenBlock, SealedBlock};

verus! {

/// Gas limit of the genesis block of the in-memory chain.
pub const GENESIS_GAS_LIMIT: u128 = 10_000_000;

/// Difficulty carried by every header of the in-memory chain.
pub const MODEL_DIFFICULTY: u128 = 1_000;

/// A snapshot of the chain tip.
#[derive(Clone, Copy, Debug, PartialEq, Eq, Structural)]
pub struct ChainInfo {
    /// Hash of the best block.
    pub best_block_hash: u64,
    /// Number of the best block.
    pub best_block_number: u64,
    /// Timestamp of the best block.
    pub best_block_timestamp: u64,
}

/// Re-verification of a signed transaction against current state: fails
/// on a malformed transaction, and on a service transaction when those are
/// refused.
pub open spec fn verify_verdict(tx: Transaction, refuse_service: bool) -> Option<PushError> {
    if !tx.well_formed {
        Some(PushError::Invalid)
    } else if tx.service && refuse_service {
        Some(PushError::NotAllowed)
    } else {
        None
    }
}

/// Checks a transaction as `verify_verdict` says.
pub fn verify_signed(tx: &Transaction, refuse_service: bool) -> (r: Result<(), PushError>)
    ensures
        match verify_verdict(*tx, refuse_service) {
            Some(e) => r == Result::<(), PushError>::Err(e),
            None => r == Result::<(), PushError>::Ok(()),
        },
{
    if !tx.well_formed {
        Err(PushError::Invalid)
    } else if tx.service && refuse_service {
        Err(PushError::NotAllowed)
    } else {
        Ok(())
    }
}

/// An in-memory chain: headers and bodies from genesis to the best block.
#[derive(Debug)]
pub struct ChainClient {
    headers: Vec<Header>,
    bodies: Vec<Vec<Transaction>>,
    included: Vec<u64>,
    proposals: Vec<u64>,
}

impl ChainClient {
    /// The header values from genesis to the tip.
    pub closed spec fn headers_seq(self) -> Seq<HeaderV> {
        self.headers@.map_values(|h: Header| h@)
    }

    /// The transactions of each block, by height.
    pub closed spec fn bodies_seq(self) -> Seq<Seq<Transaction>> {
        self.bodies@.map_values(|b: Vec<Transaction>| b@)
    }

    /// Hashes of every transaction included in the chain.
    pub closed spec fn included_seq(self) -> Seq<u64> {
        self.included@
    }

    /// Hashes of the proposal blocks broadcast so far.
    pub closed spec fn proposals_seq(self) -> Seq<u64> {
        self.proposals@
    }

    /// Number of the best block.
    pub open spec fn best_number(self) -> int {
        self.headers_seq().len() - 1
    }

    /// Hash of the best block.
    pub open spec fn best_hash(self) -> u64 {
        self.headers_seq().last().hash
    }

    /// The chain always has a genesis, one body per header, and heights
    /// match positions.
    pub closed spec fn wf(self) -> bool {
        &&& self.headers@.len() >= 1
        &&& self.bodies@.len() == self.headers@.len()
        &&& forall|i: int| 0 <= i < self.headers@.len()
                ==> (#[trigger] self.headers@[i]).number == i
    }

    /// A chain holding only its genesis block.
    pub fn new() -> (r: ChainClient)
        ensures
            r.wf(),
            r.best_number() == 0,
            r.included_seq() == Seq::<u64>::empty(),
            r.proposals_seq() == Seq::<u64>::empty(),
    {
        let genesis = Header {
            number: 0,
            parent_hash: 0,
            hash: 1,
            author: 0,
            difficulty: MODEL_DIFFICULTY,
            gas_limit: GENESIS_GAS_LIMIT,
            gas_used: 0,
            timestamp: 0,
            extra_data: Vec::new(),
        };
        let mut headers: Vec<Header> = Vec::new();
        headers.push(genesis);
        let mut bodies: Vec<Vec<Transaction>> = Vec::new();
        bodies.push(Vec::new());
        let r = ChainClient { headers, bodies, included: Vec::new(), proposals: Vec::new() };
        proof {
            assert(r.included_seq() =~= Seq::<u64>::empty());
            assert(r.proposals_seq() =~= Seq::<u64>::empty());
        }
        r
    }

    /// The chain tip.
    pub fn chain_info(&self) -> (r: ChainInfo)
        requires
            self.wf(),
        ensures
            r.best_block_hash == self.best_hash(),
            r.best_block_number == self.best_number(),
            r.best_block_timestamp == self.headers_seq().last().timestamp,
    {
        let last = &self.headers[self.headers.len() - 1];
        ChainInfo {
            best_block_hash: last.hash,
            best_block_number: last.number,
            best_block_timestamp: last.timestamp,
        }
    }

    /// A copy of the best block's header.
    pub fn best_block_header(&self) -> (r: Header)
        requires
            self.wf(),
        ensures
            r@ == self.headers_seq().last(),
    {
        self.headers[self.headers.len() - 1].duplicate()
    }

    /// Looks a header up by block hash.
    pub fn block_header(&self, hash: u64) -> (r: Option<Header>)
        requires
            self.wf(),
        ensures
            match r {
                Some(h) => exists|i: int|
                    0 <= i < self.headers_seq().len() && #[trigger] self.headers_seq()[i] == h@
                        && h@.hash == hash,
                None => forall|i: int| 0 <= i < self.headers_seq().len()
                    ==> (#[trigger] self.headers_seq()[i]).hash != hash,
            },
    {
        let mut i: usize = 0;
        while i < self.headers.len()
            invariant
                i <= self.headers@.len(),
                forall|j: int| 0 <= j < i ==> (#[trigger] self.headers_seq()[j]).hash != hash,
            decreases self.headers@.len() - i,
        {
            if self.headers[i].hash == hash {
                let h = self.headers[i].duplicate();
                proof {
                    assert(self.headers_seq()[i as int] == h@);
                }
                return Some(h);
            }
            i = i + 1;
        }
        None
    }

    /// The transactions of the block with the given hash.
    pub fn block_transactions(&self, hash: u64) -> (r: Option<Vec<Transaction>>)
        requires
            self.wf(),
        ensures
            match r {
                Some(txs) => exists|i: int|
                    0 <= i < self.headers_seq().len()
                        && (#[trigger] self.headers_seq()[i]).hash == hash
                        && txs@ == self.bodies_seq()[i],
                None => forall|i: int| 0 <= i < self.headers_seq().len()
                    ==> (#[trigger] self.headers_seq()[i]).hash != hash,
            },
    {
        let mut i: usize = 0;
        while i < self.headers.len()
            invariant
                self.wf(),
                i <= self.headers@.len(),
                forall|j: int| 0 <= j < i ==> (#[trigger] self.headers_seq()[j]).hash != hash,
            decreases self.headers@.len() - i,
        {
            if self.headers[i].hash == hash {
                let txs = clone_vec(&self.bodies[i]);
                proof {
                    assert(self.headers_seq()[i as int].hash == hash);
                    assert(txs@ == self.bodies_seq()[i as int]);
                }
                return Some(txs);
            }
            i = i + 1;
        }
        None
    }

    /// Opens a fresh block atop the best tip with the given authoring
    /// parameters. The gas limit is the upper gas target when one is set,
    /// else the parent's.
    pub fn prepare_open_block(
        &self,
        author: u64,
        gas_range_target: (u128, u128),
        extra_data: Vec<u8>,
    ) -> (r: OpenBlock)
        requires
            self.wf(),
            self.best_number() < u64::MAX,
        ensures
            r.wf(),
            r.transactions@ == Seq::<Transaction>::empty(),
            r.receipts@ == Seq::<crate::types::Receipt>::empty(),
            r.header@ == (HeaderV {
                number: (self.best_number() + 1) as u64,
                parent_hash: self.best_hash(),
                hash: 0u64,
                author,
                difficulty: MODEL_DIFFICULTY,
                gas_limit: if gas_range_target.1 > 0 {
                    gas_range_target.1
                } else {
                    self.headers_seq().last().gas_limit
                },
                gas_used: 0u128,
                timestamp: if self.headers_seq().last().timestamp < u64::MAX {
                    (self.headers_seq().last().timestamp + 1) as u64
                } else {
                    u64::MAX as u64
                },
                extra_data: extra_data@,
            }),
    {
        let parent = &self.headers[self.headers.len() - 1];
        let gas_limit = if gas_range_target.1 > 0 {
            gas_range_target.1
        } else {
            parent.gas_limit
        };
        let timestamp = if parent.timestamp < u64::MAX {
            parent.timestamp + 1
        } else {
            parent.timestamp
        };
        let header = Header {
            number: parent.number + 1,
            parent_hash: parent.hash,
            hash: 0,
            author,
            difficulty: MODEL_DIFFICULTY,
            gas_limit,
            gas_used: 0,
            timestamp,
            extra_data,
        };
        let r = OpenBlock { header, transactions: Vec::new(), receipts: Vec::new() };
        proof {
            assert(r.header@ =~= (HeaderV {
                number: (self.best_number() + 1) as u64,
                parent_hash: self.best_hash(),
                hash: 0u64,
                author,
                difficulty: MODEL_DIFFICULTY,
                gas_limit,
                gas_used: 0u128,
                timestamp: if self.headers_seq().last().timestamp < u64::MAX {
                    (self.headers_seq().last().timestamp + 1) as u64
                } else {
                    u64::MAX as u64
                },
                extra_data: r.header.extra_data@,
            }));
        }
        r
    }

    /// Imports a sealed block: appends it to the chain when it extends the
    /// best tip, recording its transactions as included; accepts a block
    /// atop any other known header as a side block without effect; rejects
    /// a block with an unknown parent.
    pub fn import_sealed_block(&mut self, sealed: SealedBlock) -> (r: Result<(), Error>)
        requires
            old(self).wf(),
            old(self).best_number() < u64::MAX,
        ensures
            final(self).wf(),
            final(self).proposals_seq() == old(self).proposals_seq(),
            if sealed.header.parent_hash == old(self).best_hash()
                && sealed.header.number == old(self).best_number() + 1 {
                &&& r == Result::<(), Error>::Ok(())
                &&& final(self).headers_seq() == old(self).headers_seq().push(sealed.header@)
                &&& final(self).bodies_seq() == old(self).bodies_seq().push(sealed.transactions@)
                &&& final(self).included_seq() == old(self).included_seq()
                    + sealed.transactions@.map_values(|t: Transaction| t.hash)
                &&& final(self).best_number() == old(self).best_number() + 1
            } else if exists|i: int| 0 <= i < old(self).headers_seq().len()
                && (#[trigger] old(self).headers_seq()[i]).hash == sealed.header.parent_hash {
                &&& r == Result::<(), Error>::Ok(())
                &&& *final(self) == *old(self)
            } else {
                &&& r == Result::<(), Error>::Err(Error::Import)
                &&& *final(self) == *old(self)
            },
    {
        proof {
            assert(self.headers@[self.headers@.len() - 1].number == self.headers@.len() - 1);
            assert(self.headers_seq().last() == self.headers@[self.headers@.len() - 1]@);
        }
        let best = &self.headers[self.headers.len() - 1];
        if !(sealed.header.parent_hash == best.hash && sealed.header.number == best.number + 1) {
            let mut i: usize = 0;
            while i < self.headers.len()
                invariant
                    i <= self.headers@.len(),
                    *self == *old(self),
                    self.wf(),
                    !(sealed.header.parent_hash == old(self).best_hash()
                        && sealed.header.number == old(self).best_number() + 1),
                    forall|j: int| 0 <= j < i
                        ==> (#[trigger] self.headers_seq()[j]).hash
                            != sealed.header.parent_hash,
                decreases self.headers@.len() - i,
            {
                if self.headers[i].hash == sealed.header.parent_hash {
                    proof {
                        assert(self.headers_seq()[i as int].hash == sealed.header.parent_hash);
                    }
                    return Ok(());
                }
                i = i + 1;
            }
            return Err(Error::Import);
        }
        let ghost orig = *old(self);
        let mut i: usize = 0;
        while i < sealed.transactions.len()
            invariant
                i <= sealed.transactions@.len(),
                self.headers@ == orig.headers@,
                self.bodies@ == orig.bodies@,
                self.proposals@ == orig.proposals@,
                self.included@ == orig.included@
                    + sealed.transactions@.subrange(0, i as int).map_values(|t: Transaction| t.hash),
            decreases sealed.transactions@.len() - i,
        {
            self.included.push(sealed.transactions[i].hash);
            i = i + 1;
            proof {
                assert(self.included@ =~= orig.included@
                    + sealed.transactions@.subrange(0, i as int).map_values(
                        |t: Transaction| t.hash,
                    ));
            }
        }
        self.headers.push(sealed.header);
        self.bodies.push(sealed.transactions);
        proof {
            assert(sealed.transactions@.subrange(0, sealed.transactions@.len() as int)
                =~= sealed.transactions@);
            assert(self.headers_seq() =~= orig.headers_seq().push(self.headers@.last()@));
            assert(self.bodies_seq() =~= orig.bodies_seq().push(self.bodies@.last()@));
        }
        Ok(())
    }

    /// Records a proposal block as broadcast.
    pub fn broadcast_proposal_block(&mut self, sealed: SealedBlock)
        requires
            old(self).wf(),
        ensures
            final(self).wf(),
            final(self).headers_seq() == old(self).headers_seq(),
            final(self).bodies_seq() == old(self).bodies_seq(),
            final(self).included_seq() == old(self).included_seq(),
            final(self).proposals_seq() == old(self).proposals_seq().push(sealed.header.hash),
    {
        self.proposals.push(sealed.header.hash);
    }

    /// Extends the chain with `count` empty blocks; the model of growing
    /// the chain from outside the authoring core.
    pub fn add_blocks(&mut self, count: usize)
        requires
            old(self).wf(),
            old(self).best_number() + count <= u64::MAX,
        ensures
            final(self).wf(),
            final(self).best_number() == old(self).best_number() + count,
            final(self).proposals_seq() == old(self).proposals_seq(),
            final(self).included_seq() == old(self).included_seq(),
    {
        let mut k: usize = 0;
        while k < count
            invariant
                k <= count,
                self.wf(),
                old(self).best_number() + count <= u64::MAX,
                self.best_number() == old(self).best_number() + k,
                self.proposals_seq() == old(self).proposals_seq(),
                self.included_seq() == old(self).included_seq(),
            decreases count - k,
        {
            let open = self.prepare_open_block(0, (0, 0), Vec::new());
            let closed = open.close();
            let sealed = SealedBlock {
                header: closed.header,
                transactions: closed.transactions,
                seal: Vec::new(),
            };
            let ghost pre = *self;
            let res = self.import_sealed_block(sealed);
            proof {
                assert(res is Ok);
            }
            k = k + 1;
        }
    }

    /// The hashes of every transaction included in the chain.
    pub fn included_transactions(&self) -> (r: Vec<u64>)
        ensures
            r@ == self.included_seq(),
    {
        clone_vec(&self.included)
    }

    /// How many proposal blocks were broadcast.
    pub fn proposal_count(&self) -> (r: usize)
        ensures
            r == self.proposals_seq().len(),
    {
        self.proposals.len()
    }
}

} // verus!
