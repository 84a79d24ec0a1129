//! In-memory override maps for the versioned state store.
//!
//! The maps are `hashbrown` hash maps, held in opaque structs behind trusted
//! wrappers: Verus reasons about their contents only through the
//! [`override_entries`] and [`metadata_entries`] spec functions and the
//! contracts of the wrapper methods below.

use vstd::prelude::*;

verus! {

/// Overrides for raw data keys, shadowing the historical chain while the
/// store is positioned at its tip.
#[verifier::external_body]
pub struct OverrideMap {
    inner: hashbrown::HashMap<String, String>,
}

/// The key/value entries an [`OverrideMap`] holds.
pub uninterp spec fn override_entries(m: OverrideMap) -> Map<Seq<char>, Seq<char>>;

/// The contents of an override map with nothing in it.
pub open spec fn empty_overrides() -> Map<Seq<char>, Seq<char>> {
    Map::empty()
}

impl OverrideMap {
    /// Relies on `hashbrown::HashMap::new`: a freshly created map holds no
    /// entries.
    #[verifier::external_body]
    pub fn new() -> (m: OverrideMap)
        ensures
            override_entries(m) == empty_overrides(),
    {
        OverrideMap { inner: hashbrown::HashMap::new() }
    }

    /// Relies on `hashbrown::HashMap::insert`: afterwards the key maps to the
    /// value, and every other key is left alone.
    #[verifier::external_body]
    pub fn insert(&mut self, key: String, value: String)
        ensures
            override_entries(*final(self)) == override_entries(*old(self)).insert(key@, value@),
    {
        self.inner.insert(key, value);
    }

    /// Relies on `hashbrown::HashMap::get`: returns the value the key maps
    /// to, if any (cloned here so the caller owns it).
    #[verifier::external_body]
    pub fn get(&self, key: &str) -> (r: Option<String>)
        ensures
            match r {
                Some(v) => override_entries(*self).contains_key(key@) && v@ == override_entries(
                    *self,
                )[key@],
                None => !override_entries(*self).contains_key(key@),
            },
    {
        self.inner.get(key).map(|v| v.clone())
    }

    /// Relies on `hashbrown::HashMap::contains_key`.
    #[verifier::external_body]
    pub fn contains_key(&self, key: &str) -> (r: bool)
        ensures
            r == override_entries(*self).contains_key(key@),
    {
        self.inner.contains_key(key)
    }
}

/// Overrides for contract metadata, keyed by the pair of a contract
/// identifier and a metadata key.
#[verifier::external_body]
pub struct MetadataOverrideMap {
    inner: hashbrown::HashMap<(String, String), String>,
}

/// The entries a [`MetadataOverrideMap`] holds, keyed by
/// (contract identifier, metadata key).
pub uninterp spec fn metadata_entries(m: MetadataOverrideMap) -> Map<
    (Seq<char>, Seq<char>),
    Seq<char>,
>;

/// The contents of a metadata override map with nothing in it.
pub open spec fn empty_metadata_overrides() -> Map<(Seq<char>, Seq<char>), Seq<char>> {
    Map::empty()
}

impl MetadataOverrideMap {
    /// Relies on `hashbrown::HashMap::new`: a freshly created map holds no
    /// entries.
    #[verifier::external_body]
    pub fn new() -> (m: MetadataOverrideMap)
        ensures
            metadata_entries(m) == empty_metadata_overrides(),
    {
        MetadataOverrideMap { inner: hashbrown::HashMap::new() }
    }

    /// Relies on `hashbrown::HashMap::insert`: afterwards the pair key maps
    /// to the value, and every other pair is left alone.
    #[verifier::external_body]
    pub fn insert(&mut self, contract: String, key: String, value: String)
        ensures
            metadata_entries(*final(self)) == metadata_entries(*old(self)).insert(
                (contract@, key@),
                value@,
            ),
    {
        self.inner.insert((contract, key), value);
    }

    /// Relies on `hashbrown::HashMap::get`: returns the value the pair key
    /// maps to, if any (cloned here so the caller owns it).
    #[verifier::external_body]
    pub fn get(&self, contract: &str, key: &str) -> (r: Option<String>)
        ensures
            match r {
                Some(v) => metadata_entries(*self).contains_key((contract@, key@)) && v@
                    == metadata_entries(*self)[(contract@, key@)],
                None => !metadata_entries(*self).contains_key((contract@, key@)),
            },
    {
        self.inner.get(&(contract.to_owned(), key.to_owned())).map(|v| v.clone())
    }

    /// Relies on `hashbrown::HashMap::contains_key`.
    #[verifier::external_body]
    pub fn contains_key(&self, contract: &str, key: &str) -> (r: bool)
        ensures
            r == metadata_entries(*self).contains_key((contract@, key@)),
    {
        self.inner.contains_key(&(contract.to_owned(), key.to_owned()))
    }
}

} // verus!
