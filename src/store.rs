//! The key-value store behind the registry: asset records keyed by
//! `Assetbook`, license records keyed by `Licensebook`, and the asset counter.
use std::collections::HashMap;
use vstd::prelude::*;

use crate::types::{Assetbook, AssetModel, DigitalAsset, License, LicenseModel, Licensebook};

verus! {

broadcast use vstd::std_specs::hash::group_hash_axioms;

/// The store as mathematical maps, with an unset counter read as zero.
pub struct StoreModel {
    pub assets: Map<u64, AssetModel>,
    pub licenses: Map<u64, LicenseModel>,
    pub count: u64,
}

/// Three key families over one store: get, set, and a default on a miss.
pub struct Store {
    assets: HashMap<u64, DigitalAsset>,
    licenses: HashMap<u64, License>,
    count: Option<u64>,
}

impl View for Store {
    type V = StoreModel;

    closed spec fn view(&self) -> StoreModel {
        StoreModel {
            assets: self.assets@.map_values(|a: DigitalAsset| a@),
            licenses: self.licenses@.map_values(|l: License| l@),
            count: match self.count {
                Some(c) => c,
                None => 0,
            },
        }
    }
}

impl Store {
    /// An empty store: no asset, no license, the counter unset.
    pub fn new() -> (r: Store)
        ensures
            r@.assets == Map::<u64, AssetModel>::empty(),
            r@.licenses == Map::<u64, LicenseModel>::empty(),
            r@.count == 0,
    {
        let r = Store { assets: HashMap::new(), licenses: HashMap::new(), count: None };
        assert(r@.assets =~= Map::<u64, AssetModel>::empty());
        assert(r@.licenses =~= Map::<u64, LicenseModel>::empty());
        r
    }

    /// The asset stored under `key`, if any.
    pub fn get_asset(&self, key: &Assetbook) -> (r: Option<DigitalAsset>)
        ensures
            match r {
                Some(a) => self@.assets.contains_key(key.id()) && a@ == self@.assets[key.id()],
                None => !self@.assets.contains_key(key.id()),
            },
    {
        let id = match key {
            Assetbook::Asset(id) => *id,
        };
        match self.assets.get(&id) {
            Some(a) => Some(a.clone()),
            None => None,
        }
    }

    /// Stores `asset` under `key`, replacing what was there.
    pub fn set_asset(&mut self, key: &Assetbook, asset: DigitalAsset)
        ensures
            final(self)@.assets == old(self)@.assets.insert(key.id(), asset@),
            final(self)@.licenses == old(self)@.licenses,
            final(self)@.count == old(self)@.count,
    {
        let id = match key {
            Assetbook::Asset(id) => *id,
        };
        let ghost a = asset@;
        self.assets.insert(id, asset);
        assert(self@.assets =~= old(self)@.assets.insert(id, a));
    }

    /// The license stored under `key`, if any.
    pub fn get_license(&self, key: &Licensebook) -> (r: Option<License>)
        ensures
            match r {
                Some(l) => self@.licenses.contains_key(key.id()) && l@
                    == self@.licenses[key.id()],
                None => !self@.licenses.contains_key(key.id()),
            },
    {
        let id = match key {
            Licensebook::License(id) => *id,
        };
        match self.licenses.get(&id) {
            Some(l) => Some(l.clone()),
            None => None,
        }
    }

    /// Stores `license` under `key`, replacing what was there.
    pub fn set_license(&mut self, key: &Licensebook, license: License)
        ensures
            final(self)@.licenses == old(self)@.licenses.insert(key.id(), license@),
            final(self)@.assets == old(self)@.assets,
            final(self)@.count == old(self)@.count,
    {
        let id = match key {
            Licensebook::License(id) => *id,
        };
        let ghost l = license@;
        self.licenses.insert(id, license);
        assert(self@.licenses =~= old(self)@.licenses.insert(id, l));
    }

    /// The asset counter, zero when it was never set.
    pub fn get_count(&self) -> (r: u64)
        ensures
            r == self@.count,
    {
        match self.count {
            Some(c) => c,
            None => 0,
        }
    }

    /// Sets the asset counter.
    pub fn set_count(&mut self, count: u64)
        ensures
            final(self)@.count == count,
            final(self)@.assets == old(self)@.assets,
            final(self)@.licenses == old(self)@.licenses,
    {
        self.count = Some(count);
    }
}

} // verus!
