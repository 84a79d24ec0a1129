//! The historical side of the store: a chain of blocks, each with the
//! key/value entries written at that block, plus the metadata table keyed by
//! commitment block and contract.
//!
//! The chain is read-only during a replay session; the store in
//! [`crate::store`] layers its in-memory overrides in front of it.

use vstd::prelude::*;

verus! {

/// An opaque content identifier naming one block's final state.
#[derive(Clone, Copy, PartialEq, Eq, Structural, Debug, Hash)]
pub struct BlockId {
    pub value: u64,
}

/// Raw value of the sentinel identifier that stands for "no block yet".
pub const SENTINEL_BLOCK_RAW: u64 = 0;

/// Raw value of the designated first-ever block identifier.
pub const GENESIS_BLOCK_RAW: u64 = 1;

impl BlockId {
    pub fn sentinel() -> (b: BlockId)
        ensures
            b == spec_sentinel_block(),
    {
        BlockId { value: SENTINEL_BLOCK_RAW }
    }

    pub fn genesis() -> (b: BlockId)
        ensures
            b == spec_genesis_block(),
    {
        BlockId { value: GENESIS_BLOCK_RAW }
    }
}

pub open spec fn spec_sentinel_block() -> BlockId {
    BlockId { value: SENTINEL_BLOCK_RAW }
}

pub open spec fn spec_genesis_block() -> BlockId {
    BlockId { value: GENESIS_BLOCK_RAW }
}

/// The identifiers whose height resolves to 0 even when the chain has no
/// entry for them: the chain-origin exception.
pub open spec fn spec_is_genesis_marker(b: BlockId) -> bool {
    b == spec_sentinel_block() || b == spec_genesis_block()
}

pub fn is_genesis_marker(b: &BlockId) -> (r: bool)
    ensures
        r == spec_is_genesis_marker(*b),
{
    b.value == SENTINEL_BLOCK_RAW || b.value == GENESIS_BLOCK_RAW
}

/// One block of history: its identifier and the key/value entries written at
/// that block.
pub struct HistoricalBlock {
    pub id: BlockId,
    pub entries: Vec<(String, String)>,
}

/// A metadata record: the value stored for `key` under `contract`, committed
/// at block `block`.
pub struct MetadataRecord {
    pub block: BlockId,
    pub contract: String,
    pub key: String,
    pub value: String,
}

/// The read-only history a replay session runs against. `blocks[h]` is the
/// block at height `h`; the ancestry of the block at height `h` is
/// `blocks[0..=h]`.
pub struct HistoricalChain {
    pub blocks: Vec<HistoricalBlock>,
    pub metadata: Vec<MetadataRecord>,
}

/// The value `key` maps to among `entries`, written-last entry winning.
pub open spec fn entry_value(entries: Seq<(String, String)>, key: Seq<char>) -> Option<Seq<char>>
    decreases entries.len(),
{
    if entries.len() == 0 {
        None
    } else if entries.last().0@ == key {
        Some(entries.last().1@)
    } else {
        entry_value(entries.drop_last(), key)
    }
}

/// The value `key` resolves to at `height`: the latest write at any height
/// up to and including `height`. Out-of-range heights resolve to nothing.
pub open spec fn spec_value_at(
    blocks: Seq<HistoricalBlock>,
    height: int,
    key: Seq<char>,
) -> Option<Seq<char>>
    decreases height + 1,
{
    if height < 0 || height >= blocks.len() {
        None
    } else {
        match entry_value(blocks[height].entries@, key) {
            Some(v) => Some(v),
            None => spec_value_at(blocks, height - 1, key),
        }
    }
}

/// The first metadata record matching `(block, contract, key)`, if any.
pub open spec fn spec_metadata_at(
    records: Seq<MetadataRecord>,
    block: BlockId,
    contract: Seq<char>,
    key: Seq<char>,
) -> Option<Seq<char>>
    decreases records.len(),
{
    if records.len() == 0 {
        None
    } else if records.first().block == block && records.first().contract@ == contract
        && records.first().key@ == key {
        Some(records.first().value@)
    } else {
        spec_metadata_at(records.drop_first(), block, contract, key)
    }
}

impl HistoricalChain {
    /// Chain well-formedness: heights fit the protocol's 32-bit height
    /// space, block identifiers are distinct along the ancestry, and the
    /// genesis markers never name a stored block.
    pub open spec fn wf(self) -> bool {
        &&& self.blocks@.len() < u32::MAX as nat
        &&& forall|i: int, j: int|
            0 <= i < j < self.blocks@.len() ==> self.blocks@[i].id != self.blocks@[j].id
        &&& forall|i: int|
            0 <= i < self.blocks@.len() ==> !spec_is_genesis_marker(#[trigger] self.blocks@[i].id)
    }

    pub open spec fn spec_contains_block(self, b: BlockId) -> bool {
        exists|i: int| 0 <= i < self.blocks@.len() && self.blocks@[i].id == b
    }

    /// The height of block `b`; meaningful only when the chain contains `b`.
    pub open spec fn spec_height_of(self, b: BlockId) -> int {
        choose|i: int| 0 <= i < self.blocks@.len() && self.blocks@[i].id == b
    }

    /// Check [`HistoricalChain::wf`] at run time, so that history handed in
    /// from outside can be validated before a session starts.
    pub fn check_wf(&self) -> (r: bool)
        ensures
            r == self.wf(),
    {
        let n = self.blocks.len();
        if !(n < u32::MAX as usize) {
            return false;
        }
        let mut i: usize = 0;
        while i < n
            invariant
                n == self.blocks@.len(),
                n < u32::MAX as usize,
                0 <= i <= n,
                forall|p: int, q: int|
                    0 <= p < q < i ==> self.blocks@[p].id != self.blocks@[q].id,
                forall|p: int|
                    0 <= p < i ==> !spec_is_genesis_marker(#[trigger] self.blocks@[p].id),
            decreases n - i,
        {
            if is_genesis_marker(&self.blocks[i].id) {
                return false;
            }
            let mut j: usize = 0;
            while j < i
                invariant
                    n == self.blocks@.len(),
                    0 <= j <= i < n,
                    forall|p: int| 0 <= p < j ==> self.blocks@[p].id != self.blocks@[i as int].id,
                decreases i - j,
            {
                if self.blocks[j].id == self.blocks[i].id {
                    return false;
                }
                j += 1;
            }
            i += 1;
        }
        true
    }

    /// The height of block `b` in this chain, or `None` when the chain has
    /// no entry for it.
    pub fn height_of(&self, b: &BlockId) -> (r: Option<u32>)
        requires
            self.wf(),
        ensures
            r is Some <==> self.spec_contains_block(*b),
            r matches Some(h) ==> h as int == self.spec_height_of(*b) && self.blocks@[h as int].id
                == *b,
    {
        let n = self.blocks.len();
        let mut i: usize = 0;
        while i < n
            invariant
                n == self.blocks@.len(),
                self.wf(),
                0 <= i <= n,
                forall|j: int| 0 <= j < i ==> self.blocks@[j].id != *b,
            decreases n - i,
        {
            if self.blocks[i].id == *b {
                proof {
                    let w = self.spec_height_of(*b);
                    assert(0 <= w < self.blocks@.len() && self.blocks@[w].id == *b);
                    assert(w == i as int);
                }
                return Some(i as u32);
            }
            i += 1;
        }
        None
    }

    /// The block identifier at height `h` in this chain's ancestry.
    pub fn id_at_height(&self, h: u32) -> (r: Option<BlockId>)
        ensures
            r is Some <==> (h as int) < self.blocks@.len(),
            r matches Some(b) ==> b == self.blocks@[h as int].id,
    {
        if (h as usize) < self.blocks.len() {
            Some(self.blocks[h as usize].id)
        } else {
            None
        }
    }

    /// The value `key` resolves to at `height`, scanning from the newest
    /// write backwards.
    pub fn value_at(&self, height: u32, key: &str) -> (r: Option<String>)
        ensures
            r is Some <==> spec_value_at(self.blocks@, height as int, key@) is Some,
            r matches Some(v) ==> spec_value_at(self.blocks@, height as int, key@) == Some(v@),
    {
        let key_owned: String = key.to_owned();
        if height as usize >= self.blocks.len() {
            return None;
        }
        let mut h: usize = height as usize;
        loop
            invariant
                self.blocks@.len() <= usize::MAX,
                0 <= h < self.blocks@.len(),
                key_owned@ == key@,
                spec_value_at(self.blocks@, height as int, key@) == spec_value_at(
                    self.blocks@,
                    h as int,
                    key@,
                ),
            decreases h,
        {
            let found = Self::scan_entries(&self.blocks[h].entries, &key_owned);
            match found {
                Some(v) => {
                    return Some(v);
                },
                None => {
                    if h == 0 {
                        proof {
                            assert(spec_value_at(self.blocks@, -1, key@) is None);
                        }
                        return None;
                    }
                    h -= 1;
                },
            }
        }
    }

    /// The newest entry for `key` in one block's write list.
    fn scan_entries(entries: &Vec<(String, String)>, key: &String) -> (r: Option<String>)
        ensures
            r is Some <==> entry_value(entries@, key@) is Some,
            r matches Some(v) ==> entry_value(entries@, key@) == Some(v@),
    {
        let mut j: usize = entries.len();
        proof {
            assert(entries@.take(j as int) =~= entries@);
        }
        while j > 0
            invariant
                0 <= j <= entries@.len(),
                entry_value(entries@, key@) == entry_value(entries@.take(j as int), key@),
            decreases j,
        {
            j -= 1;
            proof {
                assert(entries@.take(j + 1).last() == entries@[j as int]);
                assert(entries@.take(j + 1).drop_last() =~= entries@.take(j as int));
            }
            if entries[j].0 == *key {
                return Some(entries[j].1.clone());
            }
        }
        proof {
            assert(entries@.take(0) =~= Seq::<(String, String)>::empty());
        }
        None
    }

    /// The first metadata record matching `(block, contract, key)`.
    pub fn metadata_at(&self, block: &BlockId, contract: &str, key: &str) -> (r: Option<String>)
        ensures
            r is Some <==> spec_metadata_at(self.metadata@, *block, contract@, key@) is Some,
            r matches Some(v) ==> spec_metadata_at(self.metadata@, *block, contract@, key@) == Some(
                v@,
            ),
    {
        let contract_owned: String = contract.to_owned();
        let key_owned: String = key.to_owned();
        let n = self.metadata.len();
        let mut i: usize = 0;
        proof {
            assert(self.metadata@.skip(0) =~= self.metadata@);
        }
        while i < n
            invariant
                n == self.metadata@.len(),
                0 <= i <= n,
                contract_owned@ == contract@,
                key_owned@ == key@,
                spec_metadata_at(self.metadata@, *block, contract@, key@) == spec_metadata_at(
                    self.metadata@.skip(i as int),
                    *block,
                    contract@,
                    key@,
                ),
            decreases n - i,
        {
            proof {
                assert(self.metadata@.skip(i as int).first() == self.metadata@[i as int]);
                assert(self.metadata@.skip(i as int).drop_first() =~= self.metadata@.skip(
                    i as int + 1,
                ));
            }
            let rec = &self.metadata[i];
            if rec.block == *block && rec.contract == contract_owned && rec.key == key_owned {
                return Some(rec.value.clone());
            }
            i += 1;
        }
        None
    }
}

/// Whether the underlying history can be positioned at `b`: either `b` is a
/// stored block, or it is one of the genesis markers that stand for the
/// empty pre-genesis state.
pub open spec fn spec_openable(chain: HistoricalChain, b: BlockId) -> bool {
    chain.spec_contains_block(b) || spec_is_genesis_marker(b)
}

/// Resolving a block's height and resolving that height back along the same
/// ancestry yields the original identifier, for every block of the chain,
/// the one at height 0 included.
pub proof fn lemma_height_roundtrip(chain: HistoricalChain, h: int)
    requires
        chain.wf(),
        0 <= h < chain.blocks@.len(),
    ensures
        chain.spec_contains_block(chain.blocks@[h].id),
        chain.spec_height_of(chain.blocks@[h].id) == h,
{
    let b = chain.blocks@[h].id;
    assert(chain.spec_contains_block(b));
    let w = chain.spec_height_of(b);
    assert(0 <= w < chain.blocks@.len() && chain.blocks@[w].id == b);
}

/// The other direction: a contained identifier, resolved to its height and
/// back, is itself.
pub proof fn lemma_id_roundtrip(chain: HistoricalChain, b: BlockId)
    requires
        chain.wf(),
        chain.spec_contains_block(b),
    ensures
        0 <= chain.spec_height_of(b) < chain.blocks@.len(),
        chain.blocks@[chain.spec_height_of(b)].id == b,
{
    let w = chain.spec_height_of(b);
    assert(0 <= w < chain.blocks@.len() && chain.blocks@[w].id == b);
}

} // verus!
