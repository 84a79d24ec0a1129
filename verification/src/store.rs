//! The versioned state store: an in-memory override layer in front of a
//! read-only historical chain.
//!
//! While positioned at its tip the store answers reads from the overrides
//! first, falling back to (and memoizing from) the history as of the tip's
//! parent; positioned at any other block it is a plain read-through view of
//! that block's state, with the overrides invisible but kept.

use vstd::prelude::*;

use crate::chain::{
    spec_is_genesis_marker, spec_openable, spec_value_at, BlockId, HistoricalChain,
};
use crate::codec::{decode_contract_commitment, hexval_prefix, spec_valid_commitment};
use crate::overlay::{
    empty_metadata_overrides, empty_overrides, metadata_entries, override_entries,
    MetadataOverrideMap, OverrideMap,
};

verus! {

/// How a store operation fails: a missing record, surfaced as an ordinary
/// negative result, or an inconsistency in the underlying history, which
/// callers must treat as fatal for the whole session. The two are distinct
/// on purpose and must never be folded into one.
#[derive(Clone, Copy, PartialEq, Eq, Structural, Debug)]
pub enum StoreError {
    NotFound,
    StorageCorruption,
}

/// A key/value store over one historical chain, with the in-memory override
/// layer described in the module documentation.
pub struct InMemoryOverlayClarityBackingStore {
    pub chain: HistoricalChain,
    pub parent_block: BlockId,
    pub tip_block: BlockId,
    pub current_block: BlockId,
    pub override_storage: OverrideMap,
    pub override_metadata: MetadataOverrideMap,
}

/// The override map after writing `items` in order, a later write of a key
/// shadowing an earlier one.
pub open spec fn batch_overrides(
    m: Map<Seq<char>, Seq<char>>,
    items: Seq<(String, String)>,
) -> Map<Seq<char>, Seq<char>>
    decreases items.len(),
{
    if items.len() == 0 {
        m
    } else {
        batch_overrides(m, items.drop_last()).insert(items.last().0@, items.last().1@)
    }
}

/// The key under which a contract's commitment record is stored.
pub open spec fn spec_contract_commitment_key(contract: Seq<char>) -> Seq<char> {
    "clarity-contract::"@ + contract
}

/// Build the data key a contract's commitment record is stored under.
pub fn make_contract_hash_key(contract: &str) -> (k: String)
    ensures
        k@ == spec_contract_commitment_key(contract@),
{
    let prefix: String = String::from_str("clarity-contract::");
    prefix.concat(contract)
}

impl InMemoryOverlayClarityBackingStore {
    /// Session invariant: the history is well formed and the tip's parent
    /// can be opened in it, as the constructor established.
    pub open spec fn wf(self) -> bool {
        &&& self.chain.wf()
        &&& spec_openable(self.chain, self.parent_block)
        &&& (self.current_block == self.tip_block || spec_openable(
            self.chain,
            self.current_block,
        ))
    }

    pub open spec fn at_tip(self) -> bool {
        self.current_block == self.tip_block
    }

    /// The contents of the raw-data override layer.
    pub open spec fn overrides(self) -> Map<Seq<char>, Seq<char>> {
        override_entries(self.override_storage)
    }

    /// The contents of the metadata override layer.
    pub open spec fn meta_overrides(self) -> Map<(Seq<char>, Seq<char>), Seq<char>> {
        metadata_entries(self.override_metadata)
    }

    /// The block historical reads resolve through: the tip's parent while
    /// positioned at the tip, otherwise the current block itself.
    pub open spec fn read_block(self) -> BlockId {
        if self.at_tip() {
            self.parent_block
        } else {
            self.current_block
        }
    }

    /// The height historical reads resolve at; -1 when the read block is
    /// not part of the stored history (the empty pre-genesis state).
    pub open spec fn read_height(self) -> int {
        if self.chain.spec_contains_block(self.read_block()) {
            self.chain.spec_height_of(self.read_block())
        } else {
            -1
        }
    }

    /// What the history alone holds for `key` at the current read position.
    pub open spec fn historical_value(self, key: Seq<char>) -> Option<Seq<char>> {
        spec_value_at(self.chain.blocks@, self.read_height(), key)
    }

    /// What a read of `key` returns: at the tip an override shadows the
    /// history; elsewhere the history alone answers.
    pub open spec fn visible_value(self, key: Seq<char>) -> Option<Seq<char>> {
        if self.at_tip() && self.overrides().contains_key(key) {
            Some(self.overrides()[key])
        } else {
            self.historical_value(key)
        }
    }

    /// Open a replay session over `chain`, reading through `parent_block`
    /// and building `new_block` as the tip.
    ///
    /// Fails with the fatal error kind when the history is malformed or the
    /// parent cannot be opened in it: that is a corruption signal, not an
    /// ordinary miss.
    pub fn new(
        chain: HistoricalChain,
        parent_block: BlockId,
        new_block: BlockId,
    ) -> (r: Result<InMemoryOverlayClarityBackingStore, StoreError>)
        ensures
            r matches Ok(s) ==> {
                &&& s.wf()
                &&& s.chain == chain
                &&& s.parent_block == parent_block
                &&& s.tip_block == new_block
                &&& s.current_block == new_block
                &&& s.overrides() == empty_overrides()
                &&& s.meta_overrides() == empty_metadata_overrides()
            },
            r is Ok <==> chain.wf() && spec_openable(chain, parent_block),
            r is Err ==> r == Result::<InMemoryOverlayClarityBackingStore, StoreError>::Err(
                StoreError::StorageCorruption,
            ),
    {
        if !chain.check_wf() {
            return Err(StoreError::StorageCorruption);
        }
        let openable = match chain.height_of(&parent_block) {
            Some(_) => true,
            None => crate::chain::is_genesis_marker(&parent_block),
        };
        if !openable {
            return Err(StoreError::StorageCorruption);
        }
        Ok(
            InMemoryOverlayClarityBackingStore {
                chain,
                parent_block,
                tip_block: new_block,
                current_block: new_block,
                override_storage: OverrideMap::new(),
                override_metadata: MetadataOverrideMap::new(),
            },
        )
    }

    /// Write a batch of key/value entries into the override layer. The
    /// historical chain is never touched; entries land in the overrides
    /// unconditionally, in order.
    pub fn put_all_data(&mut self, items: Vec<(String, String)>)
        ensures
            final(self).overrides() == batch_overrides(old(self).overrides(), items@),
            final(self).chain == old(self).chain,
            final(self).parent_block == old(self).parent_block,
            final(self).tip_block == old(self).tip_block,
            final(self).current_block == old(self).current_block,
            final(self).meta_overrides() == old(self).meta_overrides(),
    {
        let n = items.len();
        let mut i: usize = 0;
        proof {
            assert(items@.take(0) =~= Seq::<(String, String)>::empty());
        }
        while i < n
            invariant
                n == items@.len(),
                0 <= i <= n,
                self.overrides() == batch_overrides(old(self).overrides(), items@.take(i as int)),
                self.chain == old(self).chain,
                self.parent_block == old(self).parent_block,
                self.tip_block == old(self).tip_block,
                self.current_block == old(self).current_block,
                self.meta_overrides() == old(self).meta_overrides(),
            decreases n - i,
        {
            let key = items[i].0.clone();
            let value = items[i].1.clone();
            self.override_storage.insert(key, value);
            proof {
                assert(items@.take(i + 1).drop_last() =~= items@.take(i as int));
                assert(items@.take(i + 1).last() == items@[i as int]);
            }
            i += 1;
        }
        proof {
            assert(items@.take(n as int) =~= items@);
        }
    }

    /// Read `key` at the current position.
    ///
    /// At the tip, overrides shadow the history, and a value resolved from
    /// the history is memoized into the overrides so later reads in the
    /// session do not touch the history again. A miss is an ordinary
    /// `None`, never an error. What is visible never changes: the memoized
    /// value is exactly what the history already answered.
    pub fn get_data(&mut self, key: &str) -> (r: Option<String>)
        requires
            old(self).wf(),
        ensures
            r is Some <==> old(self).visible_value(key@) is Some,
            r matches Some(v) ==> old(self).visible_value(key@) == Some(v@),
            forall|k: Seq<char>| final(self).visible_value(k) == old(self).visible_value(k),
            final(self).chain == old(self).chain,
            final(self).parent_block == old(self).parent_block,
            final(self).tip_block == old(self).tip_block,
            final(self).current_block == old(self).current_block,
            final(self).meta_overrides() == old(self).meta_overrides(),
            final(self).overrides() == old(self).overrides() || (old(self).visible_value(key@)
                matches Some(v) && final(self).overrides() == old(self).overrides().insert(
                key@,
                v,
            )),
    {
        let at_tip = self.current_block == self.tip_block;
        if at_tip && self.override_storage.contains_key(key) {
            return self.override_storage.get(key);
        }
        let read_block = if at_tip {
            self.parent_block
        } else {
            self.current_block
        };
        let historical = match self.chain.height_of(&read_block) {
            Some(h) => self.chain.value_at(h, key),
            None => {
                proof {
                    assert(spec_value_at(self.chain.blocks@, -1, key@) is None);
                }
                None
            },
        };
        match historical {
            Some(v) => {
                if at_tip {
                    self.override_storage.insert(key.to_owned(), v.clone());
                    proof {
                        assert(final(self).overrides() == old(self).overrides().insert(key@, v@));
                        assert forall|k: Seq<char>|
                            final(self).visible_value(k) == old(self).visible_value(
                                k,
                            ) by {
                            if k == key@ {
                                assert(final(self).visible_value(k) == Some(v@));
                            }
                        }
                    }
                }
                Some(v)
            },
            None => None,
        }
    }

    /// Switch the open position. Returns the previous position so a caller
    /// can peek at another block's state and come back. Overrides are kept,
    /// merely invisible away from the tip. A block the history cannot open
    /// is a corruption signal.
    pub fn set_block_hash(&mut self, bhh: BlockId) -> (r: Result<BlockId, StoreError>)
        requires
            old(self).wf(),
        ensures
            final(self).chain == old(self).chain,
            final(self).parent_block == old(self).parent_block,
            final(self).tip_block == old(self).tip_block,
            final(self).overrides() == old(self).overrides(),
            final(self).meta_overrides() == old(self).meta_overrides(),
            final(self).wf(),
            r is Ok <==> (bhh == old(self).tip_block || spec_openable(old(self).chain, bhh)),
            r matches Ok(prev) ==> prev == old(self).current_block && final(self).current_block
                == bhh,
            r is Err ==> r == Result::<BlockId, StoreError>::Err(StoreError::StorageCorruption)
                && final(self).current_block == old(self).current_block,
    {
        if bhh == self.tip_block {
            let prev = self.current_block;
            self.current_block = self.tip_block;
            return Ok(prev);
        }
        let openable = match self.chain.height_of(&bhh) {
            Some(_) => true,
            None => crate::chain::is_genesis_marker(&bhh),
        };
        if !openable {
            return Err(StoreError::StorageCorruption);
        }
        let prev = self.current_block;
        self.current_block = bhh;
        Ok(prev)
    }

    /// The tip this session is building.
    pub fn get_open_chain_tip(&self) -> (r: BlockId)
        ensures
            r == self.tip_block,
    {
        self.tip_block
    }

    pub open spec fn spec_parent_height_known(self) -> bool {
        self.chain.spec_contains_block(self.parent_block)
    }

    /// The height of the tip being built: one above its parent, or 0 at the
    /// chain's origin.
    pub open spec fn spec_open_chain_tip_height(self) -> int {
        if self.spec_parent_height_known() {
            self.chain.spec_height_of(self.parent_block) + 1
        } else {
            0
        }
    }

    /// The height of the currently open position.
    pub open spec fn spec_current_height(self) -> int {
        if self.at_tip() {
            self.spec_open_chain_tip_height()
        } else if self.chain.spec_contains_block(self.current_block) {
            self.chain.spec_height_of(self.current_block)
        } else {
            0
        }
    }

    /// The height of the tip being built. A parent with no height entry is
    /// only tolerated at the chain's origin (the genesis markers); anywhere
    /// else it is a corruption signal, never a silent zero.
    pub fn get_open_chain_tip_height(&self) -> (r: Result<u32, StoreError>)
        requires
            self.wf(),
        ensures
            r is Ok <==> (self.spec_parent_height_known() || spec_is_genesis_marker(
                self.tip_block,
            )),
            r matches Ok(h) ==> h as int == self.spec_open_chain_tip_height(),
            r is Err ==> r == Result::<u32, StoreError>::Err(StoreError::StorageCorruption),
    {
        match self.chain.height_of(&self.parent_block) {
            Some(h) => Ok(h + 1),
            None => {
                if crate::chain::is_genesis_marker(&self.tip_block) {
                    Ok(0)
                } else {
                    Err(StoreError::StorageCorruption)
                }
            },
        }
    }

    /// The height of the currently open position, with the same chain-origin
    /// exception as [`Self::get_open_chain_tip_height`].
    pub fn get_current_block_height(&self) -> (r: Result<u32, StoreError>)
        requires
            self.wf(),
        ensures
            r is Ok <==> (if self.at_tip() {
                self.spec_parent_height_known() || spec_is_genesis_marker(self.tip_block)
            } else {
                self.chain.spec_contains_block(self.current_block) || spec_is_genesis_marker(
                    self.tip_block,
                )
            }),
            r matches Ok(h) ==> h as int == self.spec_current_height(),
            r is Err ==> r == Result::<u32, StoreError>::Err(StoreError::StorageCorruption),
    {
        if self.current_block == self.tip_block {
            return self.get_open_chain_tip_height();
        }
        match self.chain.height_of(&self.current_block) {
            Some(h) => Ok(h),
            None => {
                if crate::chain::is_genesis_marker(&self.tip_block) {
                    Ok(0)
                } else {
                    Err(StoreError::StorageCorruption)
                }
            },
        }
    }

    /// The identifier of the ancestry block at `height`, resolved along
    /// whichever block is being read through; `None` when the height is out
    /// of range for that ancestry.
    pub fn get_block_at_height(&self, height: u32) -> (r: Option<BlockId>)
        requires
            self.wf(),
        ensures
            r is Some <==> (self.chain.spec_contains_block(self.read_block()) && height as int
                <= self.read_height()),
            r matches Some(b) ==> b == self.chain.blocks@[height as int].id,
    {
        let read_block = if self.current_block == self.tip_block {
            self.parent_block
        } else {
            self.current_block
        };
        match self.chain.height_of(&read_block) {
            Some(hp) => {
                if height <= hp {
                    self.chain.id_at_height(height)
                } else {
                    None
                }
            },
            None => None,
        }
    }

    /// How resolving a contract's commitment record must come out: a missing
    /// record is an ordinary not-found; a record that does not decode, or
    /// whose height lies outside the readable ancestry, is corruption.
    pub open spec fn spec_resolve_commitment(self, contract: Seq<char>) -> Result<
        (BlockId, Seq<char>),
        StoreError,
    > {
        match self.visible_value(spec_contract_commitment_key(contract)) {
            None => Err(StoreError::NotFound),
            Some(x) => if !spec_valid_commitment(x) {
                Err(StoreError::StorageCorruption)
            } else if self.chain.spec_contains_block(self.read_block()) && hexval_prefix(x, 8)
                <= self.read_height() {
                Ok((self.chain.blocks@[hexval_prefix(x, 8)].id, x.skip(8)))
            } else {
                Err(StoreError::StorageCorruption)
            },
        }
    }

    /// Resolve the block that committed `contract` and the contract's
    /// content hash, by reading the commitment record through the data path
    /// (so overrides written at the tip shadow the history) and mapping its
    /// recorded height back to a block identifier.
    pub fn get_contract_hash(&mut self, contract: &str) -> (r: Result<(BlockId, String), StoreError>)
        requires
            old(self).wf(),
        ensures
            match r {
                Ok((b, hs)) => old(self).spec_resolve_commitment(contract@) == Ok::<
                    (BlockId, Seq<char>),
                    StoreError,
                >((b, hs@)),
                Err(e) => old(self).spec_resolve_commitment(contract@) == Err::<
                    (BlockId, Seq<char>),
                    StoreError,
                >(e),
            },
            forall|k: Seq<char>| final(self).visible_value(k) == old(self).visible_value(k),
            final(self).chain == old(self).chain,
            final(self).parent_block == old(self).parent_block,
            final(self).tip_block == old(self).tip_block,
            final(self).current_block == old(self).current_block,
            final(self).meta_overrides() == old(self).meta_overrides(),
            final(self).wf(),
    {
        let key = make_contract_hash_key(contract);
        match self.get_data(key.as_str()) {
            None => Err(StoreError::NotFound),
            Some(x) => {
                match decode_contract_commitment(x.as_str()) {
                    None => Err(StoreError::StorageCorruption),
                    Some((h, hash)) => {
                        match self.get_block_at_height(h) {
                            Some(b) => Ok((b, hash)),
                            None => Err(StoreError::StorageCorruption),
                        }
                    },
                }
            },
        }
    }

    /// Record a contract metadata override. Like the raw overrides, these
    /// land unconditionally and only show through reads made at the tip.
    pub fn insert_metadata(&mut self, contract: &str, key: &str, value: &str)
        ensures
            final(self).meta_overrides() == old(self).meta_overrides().insert(
                (contract@, key@),
                value@,
            ),
            final(self).overrides() == old(self).overrides(),
            final(self).chain == old(self).chain,
            final(self).parent_block == old(self).parent_block,
            final(self).tip_block == old(self).tip_block,
            final(self).current_block == old(self).current_block,
    {
        self.override_metadata.insert(contract.to_owned(), key.to_owned(), value.to_owned());
    }

    /// Read a contract metadata value: a metadata override shadows at the
    /// tip; otherwise the record is looked up under the contract's
    /// commitment block.
    pub fn get_metadata(&mut self, contract: &str, key: &str) -> (r: Result<
        Option<String>,
        StoreError,
    >)
        requires
            old(self).wf(),
        ensures
            (old(self).at_tip() && old(self).meta_overrides().contains_key((contract@, key@)))
                ==> (r matches Ok(o) && o matches Some(v) && v@ == old(
                self,
            ).meta_overrides().index((contract@, key@))),
            !(old(self).at_tip() && old(self).meta_overrides().contains_key((contract@, key@)))
                ==> match r {
                Ok(o) => {
                    &&& old(self).spec_resolve_commitment(contract@) is Ok
                    &&& {
                        let b = old(self).spec_resolve_commitment(contract@)->Ok_0.0;
                        match o {
                            Some(v) => crate::chain::spec_metadata_at(
                                old(self).chain.metadata@,
                                b,
                                contract@,
                                key@,
                            ) == Some(v@),
                            None => crate::chain::spec_metadata_at(
                                old(self).chain.metadata@,
                                b,
                                contract@,
                                key@,
                            ) is None,
                        }
                    }
                },
                Err(e) => old(self).spec_resolve_commitment(contract@) == Err::<
                    (BlockId, Seq<char>),
                    StoreError,
                >(e),
            },
            forall|k: Seq<char>| final(self).visible_value(k) == old(self).visible_value(k),
            final(self).chain == old(self).chain,
            final(self).parent_block == old(self).parent_block,
            final(self).tip_block == old(self).tip_block,
            final(self).current_block == old(self).current_block,
            final(self).meta_overrides() == old(self).meta_overrides(),
            final(self).wf(),
    {
        if self.current_block == self.tip_block && self.override_metadata.contains_key(
            contract,
            key,
        ) {
            match self.override_metadata.get(contract, key) {
                Some(v) => {
                    return Ok(Some(v));
                },
                None => {
                    proof {
                        assert(false);
                    }
                    return Err(StoreError::StorageCorruption);
                },
            }
        }
        match self.get_contract_hash(contract) {
            Ok((bhh, _hash)) => Ok(self.chain.metadata_at(&bhh, contract, key)),
            Err(e) => Err(e),
        }
    }
}

/// The value written last for a key by a batch, over the same entry lists
/// the historical blocks use.
pub proof fn lemma_batch_overrides_lookup(
    m: Map<Seq<char>, Seq<char>>,
    items: Seq<(String, String)>,
    key: Seq<char>,
)
    ensures
        crate::chain::entry_value(items, key) matches Some(v) ==> batch_overrides(
            m,
            items,
        ).contains_key(key) && batch_overrides(m, items)[key] == v,
        crate::chain::entry_value(items, key) is None ==> (batch_overrides(
            m,
            items,
        ).contains_key(key) == m.contains_key(key)) && (m.contains_key(key)
            ==> batch_overrides(m, items)[key] == m[key]),
    decreases items.len(),
{
    if items.len() > 0 {
        lemma_batch_overrides_lookup(m, items.drop_last(), key);
    }
}

/// For every key a batch wrote while the store stands at its tip, a read
/// sees exactly the batch's (latest) value for it, whatever the historical
/// chain holds for that key.
pub proof fn lemma_write_batch_then_read(
    pre: InMemoryOverlayClarityBackingStore,
    post: InMemoryOverlayClarityBackingStore,
    items: Seq<(String, String)>,
    key: Seq<char>,
)
    requires
        pre.at_tip(),
        post.chain == pre.chain,
        post.parent_block == pre.parent_block,
        post.tip_block == pre.tip_block,
        post.current_block == pre.current_block,
        post.overrides() == batch_overrides(pre.overrides(), items),
        crate::chain::entry_value(items, key) is Some,
    ensures
        post.visible_value(key) == crate::chain::entry_value(items, key),
{
    lemma_batch_overrides_lookup(pre.overrides(), items, key);
}

/// Switching the position away from the tip and back restores overlay
/// visibility: the overrides were kept, so everything visible at the tip
/// before leaving is visible again on return.
pub proof fn lemma_position_restored(
    pre: InMemoryOverlayClarityBackingStore,
    away: InMemoryOverlayClarityBackingStore,
    back: InMemoryOverlayClarityBackingStore,
    key: Seq<char>,
)
    requires
        pre.at_tip(),
        away.chain == pre.chain,
        away.parent_block == pre.parent_block,
        away.tip_block == pre.tip_block,
        away.override_storage == pre.override_storage,
        back.chain == away.chain,
        back.parent_block == away.parent_block,
        back.tip_block == away.tip_block,
        back.override_storage == away.override_storage,
        back.current_block == back.tip_block,
    ensures
        back.visible_value(key) == pre.visible_value(key),
{
}

} // verus!
