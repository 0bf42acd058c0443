use digital_rights::registry::DigitalRightsContract;
use digital_rights::store::Store;
use digital_rights::types::{Assetbook, DigitalAsset, License, LicenseError, Licensebook};

fn s(text: &str) -> String {
    text.to_string()
}

fn new_asset(store: &mut Store, owner: &str) -> u64 {
    DigitalRightsContract::create_asset(store, s("title"), s("description"), s(owner))
}

fn assert_license(l: &License, licensee: &str, rights: &str, royalty: u32, exp: u64, active: bool) {
    assert_eq!(l.licensee, licensee);
    assert_eq!(l.usage_rights, rights);
    assert_eq!(l.royalty_percentage, royalty);
    assert_eq!(l.expiration_time, exp);
    assert_eq!(l.is_active, active);
}

fn assert_not_found_asset(a: &DigitalAsset) {
    assert_eq!(a.asset_id, 0);
    assert_eq!(a.title, "Not Found");
    assert_eq!(a.description, "Not Found");
    assert_eq!(a.owner, "Unknown");
}

#[test]
fn asset_ids_are_sequential_and_counted() {
    let mut store = Store::new();
    assert_eq!(DigitalRightsContract::asset_count(&store), 0);
    for n in 1..=10u64 {
        let id = new_asset(&mut store, "owner");
        assert_eq!(id, n);
        assert_eq!(DigitalRightsContract::asset_count(&store), n);
    }
}

#[test]
fn created_asset_is_stored_under_its_id() {
    let mut store = Store::new();
    let id = DigitalRightsContract::create_asset(&mut store, s("Song"), s("A tune"), s("GABC"));
    let a = DigitalRightsContract::view_asset(&store, id);
    assert_eq!(a.asset_id, 1);
    assert_eq!(a.title, "Song");
    assert_eq!(a.description, "A tune");
    assert_eq!(a.owner, "GABC");
}

#[test]
fn empty_text_fields_are_accepted() {
    let mut store = Store::new();
    let id = DigitalRightsContract::create_asset(&mut store, s(""), s(""), s(""));
    assert_eq!(id, 1);
    let a = DigitalRightsContract::view_asset(&store, 1);
    assert_eq!(a.title, "");
    assert_eq!(a.owner, "");
}

#[test]
fn unknown_asset_is_placeholder() {
    let mut store = Store::new();
    assert_not_found_asset(&DigitalRightsContract::view_asset(&store, 1));
    new_asset(&mut store, "alice");
    assert_not_found_asset(&DigitalRightsContract::view_asset(&store, 0));
    assert_not_found_asset(&DigitalRightsContract::view_asset(&store, 2));
    assert_not_found_asset(&DigitalRightsContract::view_asset(&store, u64::MAX));
}

#[test]
fn view_after_create_license() {
    let mut store = Store::new();
    DigitalRightsContract::create_license(&mut store, 3, s("bob"), s("reproduction"), 15, 1_700_000_000);
    let l = DigitalRightsContract::view_license(&store, 3);
    assert_license(&l, "bob", "reproduction", 15, 1_700_000_000, true);
}

#[test]
fn unknown_license_is_inactive_placeholder() {
    let store = Store::new();
    let l = DigitalRightsContract::view_license(&store, 42);
    assert_license(&l, "Unknown", "Not Found", 0, 0, false);
}

#[test]
fn approve_fresh_license_is_refused() {
    let mut store = Store::new();
    DigitalRightsContract::create_license(&mut store, 1, s("bob"), s("all"), 10, 99);
    assert_eq!(DigitalRightsContract::approve_license(&mut store, 1), Err(LicenseError::AlreadyActive));
    let l = DigitalRightsContract::view_license(&store, 1);
    assert_license(&l, "bob", "all", 10, 99, true);
}

#[test]
fn expire_without_license_is_refused() {
    let mut store = Store::new();
    assert_eq!(DigitalRightsContract::expire_license(&mut store, 5), Err(LicenseError::AlreadyInactive));
    let l = DigitalRightsContract::view_license(&store, 5);
    assert_license(&l, "Unknown", "Not Found", 0, 0, false);
}

#[test]
fn expire_twice_is_refused() {
    let mut store = Store::new();
    DigitalRightsContract::create_license(&mut store, 1, s("bob"), s("all"), 10, 99);
    assert_eq!(DigitalRightsContract::expire_license(&mut store, 1), Ok(()));
    assert_eq!(DigitalRightsContract::expire_license(&mut store, 1), Err(LicenseError::AlreadyInactive));
}

#[test]
fn expire_then_approve_restores_license() {
    let mut store = Store::new();
    DigitalRightsContract::create_license(&mut store, 2, s("carol"), s("distribution"), 7, 500);
    assert_eq!(DigitalRightsContract::expire_license(&mut store, 2), Ok(()));
    assert_license(&DigitalRightsContract::view_license(&store, 2), "carol", "distribution", 7, 500, false);
    assert_eq!(DigitalRightsContract::approve_license(&mut store, 2), Ok(()));
    assert_license(&DigitalRightsContract::view_license(&store, 2), "carol", "distribution", 7, 500, true);
}

#[test]
fn approve_unset_license_stores_active_placeholder() {
    let mut store = Store::new();
    assert_eq!(DigitalRightsContract::approve_license(&mut store, 9), Ok(()));
    assert_license(&DigitalRightsContract::view_license(&store, 9), "Unknown", "Not Found", 0, 0, true);
}

#[test]
fn create_license_overwrites_and_reactivates() {
    let mut store = Store::new();
    DigitalRightsContract::create_license(&mut store, 1, s("bob"), s("all"), 10, 99);
    assert_eq!(DigitalRightsContract::expire_license(&mut store, 1), Ok(()));
    DigitalRightsContract::create_license(&mut store, 1, s("dave"), s("print"), 200, 0);
    assert_license(&DigitalRightsContract::view_license(&store, 1), "dave", "print", 200, 0, true);
}

#[test]
fn licenses_do_not_touch_assets() {
    let mut store = Store::new();
    new_asset(&mut store, "alice");
    DigitalRightsContract::create_license(&mut store, 1, s("bob"), s("all"), 10, 99);
    assert_eq!(DigitalRightsContract::asset_count(&store), 1);
    assert_eq!(DigitalRightsContract::view_asset(&store, 1).owner, "alice");
}

#[test]
fn assets_by_owner_in_ascending_order() {
    let mut store = Store::new();
    new_asset(&mut store, "alice");
    new_asset(&mut store, "bob");
    new_asset(&mut store, "alice");
    let mine = DigitalRightsContract::view_assets_by_owner(&store, s("alice"));
    assert_eq!(mine.len(), 2);
    assert_eq!(mine[0].asset_id, 1);
    assert_eq!(mine[1].asset_id, 3);
    assert!(mine.iter().all(|a| a.owner == "alice"));
    let bobs = DigitalRightsContract::view_assets_by_owner(&store, s("bob"));
    assert_eq!(bobs.len(), 1);
    assert_eq!(bobs[0].asset_id, 2);
}

#[test]
fn assets_by_owner_includes_the_latest_asset() {
    let mut store = Store::new();
    new_asset(&mut store, "bob");
    new_asset(&mut store, "alice");
    let mine = DigitalRightsContract::view_assets_by_owner(&store, s("alice"));
    assert_eq!(mine.len(), 1);
    assert_eq!(mine[0].asset_id, 2);
}

#[test]
fn assets_by_owner_never_returns_placeholder() {
    let mut store = Store::new();
    assert!(DigitalRightsContract::view_assets_by_owner(&store, s("Unknown")).is_empty());
    new_asset(&mut store, "alice");
    assert!(DigitalRightsContract::view_assets_by_owner(&store, s("Unknown")).is_empty());
    assert!(DigitalRightsContract::view_assets_by_owner(&store, s("Alice")).is_empty());
}

#[test]
fn store_keys_are_typed() {
    let mut store = Store::new();
    assert!(store.get_asset(&Assetbook::Asset(4)).is_none());
    assert!(store.get_license(&Licensebook::License(4)).is_none());
    assert_eq!(store.get_count(), 0);
    store.set_license(&Licensebook::License(4), License::not_found());
    assert!(store.get_asset(&Assetbook::Asset(4)).is_none());
    assert_eq!(store.get_license(&Licensebook::License(4)).unwrap().licensee, "Unknown");
    store.set_asset(&Assetbook::Asset(4), DigitalAsset::not_found());
    assert_eq!(store.get_asset(&Assetbook::Asset(4)).unwrap().owner, "Unknown");
    store.set_count(7);
    assert_eq!(store.get_count(), 7);
}
