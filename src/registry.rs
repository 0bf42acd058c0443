//! The registry's operations: asset creation and lookup, the license
//! lifecycle, and the ownership query, each stated over a model of the store.
use vstd::prelude::*;

use crate::store::{Store, StoreModel};
use crate::types::{
    asset_not_found, license_not_found, AssetModel, Assetbook, DigitalAsset, License,
    LicenseError, LicenseModel, Licensebook,
};

verus! {

/// What `view_asset` yields for `id`: the stored record, else the placeholder.
pub open spec fn view_asset_of(s: StoreModel, id: u64) -> AssetModel {
    if s.assets.contains_key(id) {
        s.assets[id]
    } else {
        asset_not_found()
    }
}

/// What `view_license` yields for `id`: the stored record, else the
/// inactive placeholder.
pub open spec fn view_license_of(s: StoreModel, id: u64) -> LicenseModel {
    if s.licenses.contains_key(id) {
        s.licenses[id]
    } else {
        license_not_found()
    }
}

/// The store after `create_asset`: the next id holds the new asset and
/// the counter moves on to it.
pub open spec fn create_asset_of(
    s: StoreModel,
    title: Seq<char>,
    description: Seq<char>,
    owner: Seq<char>,
) -> StoreModel {
    let id = (s.count + 1) as u64;
    StoreModel {
        assets: s.assets.insert(
            id,
            AssetModel { asset_id: id, title: title, description: description, owner: owner },
        ),
        licenses: s.licenses,
        count: id,
    }
}

/// The store after `create_license`: an active license under `asset_id`,
/// whatever was there before.
pub open spec fn create_license_of(
    s: StoreModel,
    asset_id: u64,
    licensee: Seq<char>,
    usage_rights: Seq<char>,
    royalty_percentage: u32,
    expiration_time: u64,
) -> StoreModel {
    StoreModel {
        licenses: s.licenses.insert(
            asset_id,
            LicenseModel {
                licensee: licensee,
                usage_rights: usage_rights,
                expiration_time: expiration_time,
                royalty_percentage: royalty_percentage,
                is_active: true,
            },
        ),
        ..s
    }
}

/// The store with the license seen under `asset_id` set to `active`,
/// its other terms kept.
pub open spec fn set_active_of(s: StoreModel, asset_id: u64, active: bool) -> StoreModel {
    let l = view_license_of(s, asset_id);
    StoreModel {
        licenses: s.licenses.insert(asset_id, LicenseModel { is_active: active, ..l }),
        ..s
    }
}

/// The outcome of `approve_license`: refused when the license is active.
pub open spec fn approve_license_of(s: StoreModel, asset_id: u64) -> Result<
    StoreModel,
    LicenseError,
> {
    if view_license_of(s, asset_id).is_active {
        Err(LicenseError::AlreadyActive)
    } else {
        Ok(set_active_of(s, asset_id, true))
    }
}

/// The outcome of `expire_license`: refused when the license is inactive,
/// which an unset one is.
pub open spec fn expire_license_of(s: StoreModel, asset_id: u64) -> Result<
    StoreModel,
    LicenseError,
> {
    if view_license_of(s, asset_id).is_active {
        Ok(set_active_of(s, asset_id, false))
    } else {
        Err(LicenseError::AlreadyInactive)
    }
}

/// The assets seen under ids `1..=n` whose owner is `owner`, by ascending id.
pub open spec fn owned_by(s: StoreModel, owner: Seq<char>, n: nat) -> Seq<AssetModel>
    decreases n,
{
    if n == 0 {
        Seq::empty()
    } else {
        let prev = owned_by(s, owner, (n - 1) as nat);
        let a = view_asset_of(s, n as u64);
        if a.owner == owner {
            prev.push(a)
        } else {
            prev
        }
    }
}

/// The registry's invariant: exactly the ids `1..=count` hold an asset,
/// each under its own id.
pub open spec fn registry_wf(s: StoreModel) -> bool {
    &&& forall|id: u64| #[trigger] s.assets.contains_key(id) <==> 1 <= id <= s.count
    &&& forall|id: u64| #[trigger] s.assets.contains_key(id) ==> s.assets[id].asset_id == id
}

/// The registry's entry points; each takes the store it works on.
pub struct DigitalRightsContract;

impl DigitalRightsContract {
    /// Registers an asset under the next id and returns that id.
    pub fn create_asset(store: &mut Store, title: String, description: String, owner: String) -> (r:
        u64)
        requires
            old(store)@.count < u64::MAX,
        ensures
            r == old(store)@.count + 1,
            final(store)@ == create_asset_of(old(store)@, title@, description@, owner@),
            registry_wf(old(store)@) ==> registry_wf(final(store)@),
    {
        let asset_count = store.get_count() + 1;
        let asset = DigitalAsset { asset_id: asset_count, title, description, owner };
        store.set_asset(&Assetbook::Asset(asset_count), asset);
        store.set_count(asset_count);
        asset_count
    }

    /// Writes an active license for `asset_id`, replacing any earlier one.
    pub fn create_license(
        store: &mut Store,
        asset_id: u64,
        licensee: String,
        usage_rights: String,
        royalty_percentage: u32,
        expiration_time: u64,
    )
        ensures
            final(store)@ == create_license_of(
                old(store)@,
                asset_id,
                licensee@,
                usage_rights@,
                royalty_percentage,
                expiration_time,
            ),
    {
        let license = License {
            licensee,
            usage_rights,
            royalty_percentage,
            expiration_time,
            is_active: true,
        };
        store.set_license(&Licensebook::License(asset_id), license);
    }

    /// Turns an inactive license active; refused when it is active already.
    pub fn approve_license(store: &mut Store, asset_id: u64) -> (r: Result<(), LicenseError>)
        ensures
            match r {
                Ok(()) => approve_license_of(old(store)@, asset_id) == Ok::<
                    StoreModel,
                    LicenseError,
                >(final(store)@),
                Err(e) => approve_license_of(old(store)@, asset_id) == Err::<StoreModel, LicenseError>(
                    e,
                ) && final(store)@ == old(store)@,
            },
    {
        let mut license = Self::view_license(store, asset_id);
        if !license.is_active {
            license.is_active = true;
            store.set_license(&Licensebook::License(asset_id), license);
            Ok(())
        } else {
            Err(LicenseError::AlreadyActive)
        }
    }

    /// Turns an active license inactive; refused when it is inactive already,
    /// or was never created.
    pub fn expire_license(store: &mut Store, asset_id: u64) -> (r: Result<(), LicenseError>)
        ensures
            match r {
                Ok(()) => expire_license_of(old(store)@, asset_id) == Ok::<
                    StoreModel,
                    LicenseError,
                >(final(store)@),
                Err(e) => expire_license_of(old(store)@, asset_id) == Err::<StoreModel, LicenseError>(
                    e,
                ) && final(store)@ == old(store)@,
            },
    {
        let mut license = Self::view_license(store, asset_id);
        if license.is_active {
            license.is_active = false;
            store.set_license(&Licensebook::License(asset_id), license);
            Ok(())
        } else {
            Err(LicenseError::AlreadyInactive)
        }
    }

    /// The asset stored under `asset_id`, or the placeholder with id 0.
    pub fn view_asset(store: &Store, asset_id: u64) -> (r: DigitalAsset)
        ensures
            r@ == view_asset_of(store@, asset_id),
    {
        match store.get_asset(&Assetbook::Asset(asset_id)) {
            Some(a) => a,
            None => DigitalAsset::not_found(),
        }
    }

    /// The license stored under `asset_id`, or the inactive placeholder.
    pub fn view_license(store: &Store, asset_id: u64) -> (r: License)
        ensures
            r@ == view_license_of(store@, asset_id),
    {
        match store.get_license(&Licensebook::License(asset_id)) {
            Some(l) => l,
            None => License::not_found(),
        }
    }

    /// The assets under ids `1..=asset_count` whose owner is `owner`,
    /// by ascending id.
    pub fn view_assets_by_owner(store: &Store, owner: String) -> (r: Vec<DigitalAsset>)
        ensures
            r@.map_values(|a: DigitalAsset| a@) == owned_by(store@, owner@, store@.count as nat),
    {
        let count = Self::asset_count(store);
        let mut all_assets: Vec<DigitalAsset> = Vec::new();
        let mut i: u64 = 0;
        while i < count
            invariant
                i <= count,
                count == store@.count,
                all_assets@.map_values(|a: DigitalAsset| a@) == owned_by(
                    store@,
                    owner@,
                    i as nat,
                ),
            decreases count - i,
        {
            i = i + 1;
            let asset = Self::view_asset(store, i);
            let ghost prev = all_assets@;
            if asset.owner == owner {
                all_assets.push(asset);
                assert(all_assets@.map_values(|a: DigitalAsset| a@) =~= prev.map_values(
                    |a: DigitalAsset| a@,
                ).push(asset@));
            }
        }
        all_assets
    }

    /// The number of assets created so far.
    pub fn asset_count(store: &Store) -> (r: u64)
        ensures
            r == store@.count,
    {
        store.get_count()
    }
}

} // verus!
