//! Blocks, the chain that owns them, and the validation rules: how a block
//! is judged a valid successor, how a whole candidate chain is judged against
//! the local one, and the append / replace operations.

use vstd::prelude::*;
use crate::fingerprint::{calc_hash, spec_fingerprint};

verus! {

/// A record of the chain. Immutable once created: the chain only appends
/// blocks or swaps its whole sequence, never edits a block in place.
#[derive(Debug)]
pub struct Block {
    pub index: u32,
    pub timestamp: u32,
    pub hash: String,
    pub prev_hash: String,
    pub payload: String,
}

/// The mathematical value of a `Block`: the same fields, with the strings
/// as character sequences.
pub ghost struct BlockModel {
    pub index: u32,
    pub timestamp: u32,
    pub hash: Seq<char>,
    pub prev_hash: Seq<char>,
    pub payload: Seq<char>,
}

impl View for Block {
    type V = BlockModel;

    open spec fn view(&self) -> BlockModel {
        BlockModel {
            index: self.index,
            timestamp: self.timestamp,
            hash: self.hash@,
            prev_hash: self.prev_hash@,
            payload: self.payload@,
        }
    }
}

/// The fingerprint a block's own fields call for.
pub open spec fn block_fingerprint(b: BlockModel) -> Seq<char> {
    spec_fingerprint(b.index, b.timestamp, b.prev_hash, b.payload)
}

/// `b` is a valid successor of `prev`: position up by exactly one, linked to
/// `prev`'s stored fingerprint, and carrying the fingerprint its own fields
/// call for. Timestamps are not checked.
pub open spec fn spec_valid_successor(prev: BlockModel, b: BlockModel) -> bool {
    &&& b.index == prev.index + 1
    &&& b.prev_hash == prev.hash
    &&& b.hash == block_fingerprint(b)
}

/// Decides whether `new_block` is a valid successor of `prev_block`.
pub fn is_block_valid(prev_block: &Block, new_block: &Block) -> (r: bool)
    ensures
        r == spec_valid_successor(prev_block@, new_block@),
{
    if prev_block.index == u32::MAX || prev_block.index + 1 != new_block.index {
        return false;
    }
    if !(prev_block.hash == new_block.prev_hash) {
        return false;
    }
    let expected = calc_hash(
        &new_block.index,
        &new_block.timestamp,
        new_block.prev_hash.as_str(),
        new_block.payload.as_str(),
    );
    if !(expected == new_block.hash) {
        return false;
    }
    true
}

impl Block {
    /// Builds the successor of `prev_block` carrying `payload`: position one
    /// past the predecessor's, timestamp advanced by a fixed step of 10
    /// logical units, linked to the predecessor's stored fingerprint, and
    /// fingerprinted over its own fields. The result is a valid successor of
    /// `prev_block`.
    pub fn new(prev_block: &Block, payload: &str) -> (b: Block)
        requires
            prev_block.index + 1 <= u32::MAX,
            prev_block.timestamp + 10 <= u32::MAX,
        ensures
            b@.index == prev_block@.index + 1,
            b@.timestamp == prev_block@.timestamp + 10,
            b@.prev_hash == prev_block@.hash,
            b@.payload == payload@,
            b@.hash == block_fingerprint(b@),
            spec_valid_successor(prev_block@, b@),
    {
        let index = prev_block.index + 1;
        let timestamp = prev_block.timestamp + 10;
        let prev_hash = prev_block.hash.clone();
        let hash = calc_hash(&index, &timestamp, prev_hash.as_str(), payload);

        Block { hash, index, timestamp, prev_hash, payload: payload.to_owned() }
    }
}

/// The two ways an operation can fail. Neither is retryable; the chain is
/// left unchanged by a failed operation.
#[derive(Debug, Clone, Copy, PartialEq, Eq, Structural)]
pub enum Error {
    /// An append's freshly built block failed validation, or the chain had
    /// no last block to build on.
    InvalidBlock,
    /// A replacement candidate failed whole-chain validation or was not
    /// strictly longer than the current chain.
    InvalidChain,
}

/// The outcome of judging a candidate chain against the local one, with the
/// diagnostic a caller may want to report.
#[derive(Debug, Clone, Copy, PartialEq, Eq, Structural)]
pub enum ChainCheck {
    /// Same origin and every adjacent pair of the candidate is valid.
    Valid,
    /// The local chain has no blocks, so there is no genesis to compare.
    MissingGenesis,
    /// The candidate chain has no blocks, so it has no origin to compare.
    MissingOrigin,
    /// The recomputed fingerprints of the two first blocks differ: the
    /// candidate does not share the local chain's origin.
    OriginMismatch,
    /// The first candidate block that is not a valid successor of its
    /// predecessor, identified by its stored position.
    InvalidBlockAt(u32),
}

/// An ordered sequence of blocks. Never empty once constructed: it starts
/// from a genesis block and only grows or is swapped for a longer sequence.
#[derive(Debug)]
pub struct Blockchain {
    pub blocks: Vec<Block>,
}

impl View for Blockchain {
    type V = Seq<BlockModel>;

    open spec fn view(&self) -> Seq<BlockModel> {
        self.blocks@.map_values(|b: Block| b@)
    }
}

/// Every adjacent pair before position `n` links up.
pub open spec fn chain_linked_up_to(s: Seq<BlockModel>, n: int) -> bool {
    forall|i: int| 1 <= i < n ==> spec_valid_successor(s[i - 1], #[trigger] s[i])
}

/// Every adjacent pair of the whole sequence links up.
pub open spec fn chain_linked(s: Seq<BlockModel>) -> bool {
    chain_linked_up_to(s, s.len() as int)
}

/// A candidate chain may replace the current one only if both are non-empty,
/// their first blocks' recomputed fingerprints agree (shared origin), and the
/// candidate is internally consistent from its second block onward. Only the
/// origins are compared across the two chains: a history that diverges after
/// the origin is accepted as long as it links up.
pub open spec fn spec_chain_valid(current: Seq<BlockModel>, candidate: Seq<BlockModel>) -> bool {
    &&& current.len() > 0
    &&& candidate.len() > 0
    &&& block_fingerprint(current[0]) == block_fingerprint(candidate[0])
    &&& chain_linked(candidate)
}

/// Judges `new_chain` against `current_chain` and says why it fails, if it
/// does. The origin fingerprints are re-derived from the fields, not trusted
/// as stored. A broken link is reported by the stored position of the first
/// block that is not a valid successor of its predecessor.
pub fn check_chain(current_chain: &Blockchain, new_chain: &Blockchain) -> (r: ChainCheck)
    ensures
        r == ChainCheck::Valid <==> spec_chain_valid(current_chain@, new_chain@),
        r == ChainCheck::MissingGenesis <==> current_chain@.len() == 0,
        r == ChainCheck::MissingOrigin <==> current_chain@.len() > 0 && new_chain@.len() == 0,
        r == ChainCheck::OriginMismatch <==> current_chain@.len() > 0 && new_chain@.len() > 0
            && block_fingerprint(current_chain@[0]) != block_fingerprint(new_chain@[0]),
        r matches ChainCheck::InvalidBlockAt(ix) ==> exists|j: int|
            1 <= j < new_chain@.len() && chain_linked_up_to(new_chain@, j)
                && !spec_valid_successor(new_chain@[j - 1], #[trigger] new_chain@[j])
                && ix == new_chain@[j].index,
{
    let cur_len = current_chain.blocks.len();
    if cur_len == 0 {
        return ChainCheck::MissingGenesis;
    }
    let new_len = new_chain.blocks.len();
    if new_len == 0 {
        return ChainCheck::MissingOrigin;
    }

    let genesis_block = &current_chain.blocks[0];
    let new_origin = &new_chain.blocks[0];
    let genesis_block_hash = calc_hash(
        &genesis_block.index,
        &genesis_block.timestamp,
        genesis_block.prev_hash.as_str(),
        genesis_block.payload.as_str(),
    );
    let new_origin_hash = calc_hash(
        &new_origin.index,
        &new_origin.timestamp,
        new_origin.prev_hash.as_str(),
        new_origin.payload.as_str(),
    );
    if !(genesis_block_hash == new_origin_hash) {
        return ChainCheck::OriginMismatch;
    }

    let mut i: usize = 1;
    while i < new_len
        invariant
            1 <= i <= new_len,
            new_len == new_chain@.len(),
            current_chain@.len() > 0,
            block_fingerprint(current_chain@[0]) == block_fingerprint(new_chain@[0]),
            chain_linked_up_to(new_chain@, i as int),
        decreases new_len - i,
    {
        if !is_block_valid(&new_chain.blocks[i - 1], &new_chain.blocks[i]) {
            proof {
                assert(!spec_valid_successor(new_chain@[i - 1], new_chain@[i as int]));
                assert(!chain_linked(new_chain@));
            }
            return ChainCheck::InvalidBlockAt(new_chain.blocks[i].index);
        }
        i += 1;
    }
    ChainCheck::Valid
}

impl Blockchain {
    /// A chain is well formed when it holds at least its origin block.
    pub open spec fn wf(&self) -> bool {
        self@.len() > 0
    }

    /// Wraps a caller-supplied genesis block. The genesis fields, including
    /// its fingerprint, are accepted as given: nothing is re-derived or
    /// checked here. A genesis fingerprint that does not match its fields is
    /// only noticed when a replacement forces re-derivation.
    pub fn new(genesis_block: Block) -> (c: Blockchain)
        ensures
            c@ =~= seq![genesis_block@],
            c.wf(),
    {
        Blockchain { blocks: vec![genesis_block] }
    }

    /// Builds a successor of the last block carrying `payload`, re-validates
    /// it against that block, and appends it. The re-validation is defensive
    /// and always passes for a freshly built block, so the operation fails
    /// only on a chain that is unexpectedly empty (`InvalidBlock`, chain
    /// unchanged). On success the chain grows by exactly one block, the rest
    /// of the sequence is untouched, and the new last block is a valid
    /// successor of the old one.
    pub fn add_block(&mut self, payload: &str) -> (r: Result<(), Error>)
        requires
            old(self)@.len() > 0 ==> old(self)@.last().index + 1 <= u32::MAX
                && old(self)@.last().timestamp + 10 <= u32::MAX,
        ensures
            r is Ok <==> old(self)@.len() > 0,
            r is Err ==> final(self)@ == old(self)@ && r == Err::<(), Error>(Error::InvalidBlock),
            r is Ok ==> {
                &&& final(self).wf()
                &&& final(self)@.len() == old(self)@.len() + 1
                &&& final(self)@ =~= old(self)@.push(final(self)@.last())
                &&& spec_valid_successor(old(self)@.last(), final(self)@.last())
                &&& final(self)@.last().index == old(self)@.last().index + 1
                &&& final(self)@.last().timestamp == old(self)@.last().timestamp + 10
                &&& final(self)@.last().payload == payload@
            },
    {
        let n = self.blocks.len();
        if n == 0 {
            return Err(Error::InvalidBlock);
        }
        let prev_block = &self.blocks[n - 1];
        let new_block = Block::new(prev_block, payload);

        if is_block_valid(&self.blocks[n - 1], &new_block) {
            self.blocks.push(new_block);
            Ok(())
        } else {
            Err(Error::InvalidBlock)
        }
    }

    /// Adopts `new_chain` if and only if it is a valid replacement for the
    /// current chain and strictly longer; ties favor the incumbent. On
    /// success the whole sequence is swapped for the candidate's; on failure
    /// the error is `InvalidChain` and the chain is left unchanged.
    pub fn replace(&mut self, new_chain: Blockchain) -> (r: Result<(), Error>)
        ensures
            old(self).wf() ==> final(self).wf(),
            r is Ok <==> spec_chain_valid(old(self)@, new_chain@)
                && new_chain@.len() > old(self)@.len(),
            r is Ok ==> final(self)@ == new_chain@,
            r is Err ==> final(self)@ == old(self)@ && r == Err::<(), Error>(Error::InvalidChain),
    {
        let local_len = self.blocks.len();
        let new_len = new_chain.blocks.len();

        if is_chain_valid(&*self, &new_chain) && new_len > local_len {
            self.blocks = new_chain.blocks;
            Ok(())
        } else {
            Err(Error::InvalidChain)
        }
    }
}

/// Decides whether `new_chain` shares `current_chain`'s origin and is
/// internally consistent. The strict-length policy is applied by `replace`,
/// not here.
pub fn is_chain_valid(current_chain: &Blockchain, new_chain: &Blockchain) -> (r: bool)
    ensures
        r == spec_chain_valid(current_chain@, new_chain@),
{
    match check_chain(current_chain, new_chain) {
        ChainCheck::Valid => true,
        _ => false,
    }
}

} // verus!
