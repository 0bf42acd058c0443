//! Properties that hold across calls of the registry's operations.
use vstd::prelude::*;

use crate::registry::{
    approve_license_of, create_asset_of, create_license_of, expire_license_of, registry_wf,
    view_asset_of, view_license_of,
};
use crate::store::StoreModel;
use crate::types::{asset_not_found, AssetModel, LicenseError, LicenseModel};

verus! {

/// The store after one `create_asset` per entry of `items`
/// (title, description, owner), in order.
pub open spec fn create_assets_of(
    s: StoreModel,
    items: Seq<(Seq<char>, Seq<char>, Seq<char>)>,
) -> StoreModel
    decreases items.len(),
{
    if items.len() == 0 {
        s
    } else {
        let it = items.last();
        create_asset_of(create_assets_of(s, items.drop_last()), it.0, it.1, it.2)
    }
}

/// Ids are handed out one after another: the call at position `k` of a run
/// of `create_asset` calls sees the counter at `count + k` and so returns
/// `count + k + 1`, stores its asset under that id, and after the run the
/// counter has grown by the number of calls.
pub proof fn law_asset_ids_sequential(
    s: StoreModel,
    items: Seq<(Seq<char>, Seq<char>, Seq<char>)>,
)
    requires
        s.count + items.len() <= u64::MAX,
    ensures
        create_assets_of(s, items).count == s.count + items.len(),
        forall|k: int|
            0 <= k < items.len() ==> #[trigger] create_assets_of(s, items.take(k)).count == s.count
                + k,
        forall|k: int|
            0 <= k < items.len() ==> #[trigger] create_assets_of(s, items).assets[(s.count + k
                + 1) as u64] == (AssetModel {
                asset_id: (s.count + k + 1) as u64,
                title: items[k].0,
                description: items[k].1,
                owner: items[k].2,
            }),
    decreases items.len(),
{
    if items.len() > 0 {
        let prefix = items.drop_last();
        law_asset_ids_sequential(s, prefix);
        assert forall|k: int| 0 <= k < items.len() implies #[trigger] create_assets_of(
            s,
            items.take(k),
        ).count == s.count + k by {
            law_asset_ids_sequential(s, items.take(k));
        }
        assert forall|k: int| 0 <= k < items.len() implies #[trigger] create_assets_of(
            s,
            items,
        ).assets[(s.count + k + 1) as u64] == (AssetModel {
            asset_id: (s.count + k + 1) as u64,
            title: items[k].0,
            description: items[k].1,
            owner: items[k].2,
        }) by {
            if k < items.len() - 1 {
                assert(prefix[k] == items[k]);
            }
        }
    }
}

/// A well-formed registry holds no asset under an id that `create_asset`
/// never returned (zero, or past the counter), so looking one up yields the
/// placeholder, whose id is 0.
pub proof fn law_unknown_asset_is_placeholder(s: StoreModel, id: u64)
    requires
        registry_wf(s),
        id == 0 || id > s.count,
    ensures
        !s.assets.contains_key(id),
        view_asset_of(s, id) == asset_not_found(),
        view_asset_of(s, id).asset_id == 0,
{
}

/// An empty store, as `Store::new` makes it, satisfies the registry's
/// invariant; `create_asset` keeps it and the license operations leave the
/// assets and the counter alone.
pub proof fn law_empty_store_is_wf(s: StoreModel)
    requires
        s.assets == Map::<u64, AssetModel>::empty(),
        s.count == 0,
    ensures
        registry_wf(s),
{
}

/// Viewing a license right after creating it gives back the terms it was
/// created with, active.
pub proof fn law_view_after_create_license(
    s: StoreModel,
    id: u64,
    licensee: Seq<char>,
    usage_rights: Seq<char>,
    royalty_percentage: u32,
    expiration_time: u64,
)
    ensures
        view_license_of(
            create_license_of(s, id, licensee, usage_rights, royalty_percentage, expiration_time),
            id,
        ) == (LicenseModel {
            licensee: licensee,
            usage_rights: usage_rights,
            expiration_time: expiration_time,
            royalty_percentage: royalty_percentage,
            is_active: true,
        }),
{
}

/// Approving a license that was just created is refused as already active.
pub proof fn law_approve_fresh_license_refused(
    s: StoreModel,
    id: u64,
    licensee: Seq<char>,
    usage_rights: Seq<char>,
    royalty_percentage: u32,
    expiration_time: u64,
)
    ensures
        approve_license_of(
            create_license_of(s, id, licensee, usage_rights, royalty_percentage, expiration_time),
            id,
        ) == Err::<StoreModel, LicenseError>(LicenseError::AlreadyActive),
{
}

/// Expiring the license of an asset that never had one is refused as
/// already inactive.
pub proof fn law_expire_unset_license_refused(s: StoreModel, id: u64)
    requires
        !s.licenses.contains_key(id),
    ensures
        expire_license_of(s, id) == Err::<StoreModel, LicenseError>(LicenseError::AlreadyInactive),
{
}

/// Create, expire, approve: both transitions succeed and the license ends
/// active again with the terms it was created with.
pub proof fn law_expire_then_approve_restores(
    s: StoreModel,
    id: u64,
    licensee: Seq<char>,
    usage_rights: Seq<char>,
    royalty_percentage: u32,
    expiration_time: u64,
)
    ensures
        ({
            let s1 = create_license_of(
                s,
                id,
                licensee,
                usage_rights,
                royalty_percentage,
                expiration_time,
            );
            &&& expire_license_of(s1, id) is Ok
            &&& approve_license_of(expire_license_of(s1, id)->Ok_0, id) is Ok
            &&& view_license_of(
                approve_license_of(expire_license_of(s1, id)->Ok_0, id)->Ok_0,
                id,
            ) == (LicenseModel {
                licensee: licensee,
                usage_rights: usage_rights,
                expiration_time: expiration_time,
                royalty_percentage: royalty_percentage,
                is_active: true,
            })
        }),
{
}

} // verus!
