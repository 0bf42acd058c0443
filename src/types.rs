//! Records, storage keys and errors of the registry, with their
//! mathematical models.
use vstd::prelude::*;

verus! {

/// What a stored license holds, as plain mathematical values.
pub struct LicenseModel {
    pub licensee: Seq<char>,
    pub usage_rights: Seq<char>,
    pub expiration_time: u64,
    pub royalty_percentage: u32,
    pub is_active: bool,
}

/// What a stored asset holds, as plain mathematical values.
pub struct AssetModel {
    pub asset_id: u64,
    pub title: Seq<char>,
    pub description: Seq<char>,
    pub owner: Seq<char>,
}

/// A usage grant attached to one asset.
pub struct License {
    pub licensee: String,
    pub usage_rights: String,
    pub expiration_time: u64,
    pub royalty_percentage: u32,
    pub is_active: bool,
}

/// A registered piece of digital content.
pub struct DigitalAsset {
    pub asset_id: u64,
    pub title: String,
    pub description: String,
    pub owner: String,
}

impl View for License {
    type V = LicenseModel;

    open spec fn view(&self) -> LicenseModel {
        LicenseModel {
            licensee: self.licensee@,
            usage_rights: self.usage_rights@,
            expiration_time: self.expiration_time,
            royalty_percentage: self.royalty_percentage,
            is_active: self.is_active,
        }
    }
}

impl View for DigitalAsset {
    type V = AssetModel;

    open spec fn view(&self) -> AssetModel {
        AssetModel {
            asset_id: self.asset_id,
            title: self.title@,
            description: self.description@,
            owner: self.owner@,
        }
    }
}

/// The record that a lookup of an asset that was never stored yields.
pub open spec fn asset_not_found() -> AssetModel {
    AssetModel {
        asset_id: 0,
        title: "Not Found"@,
        description: "Not Found"@,
        owner: "Unknown"@,
    }
}

/// The record that a lookup of a license that was never stored yields:
/// inactive, with empty terms.
pub open spec fn license_not_found() -> LicenseModel {
    LicenseModel {
        licensee: "Unknown"@,
        usage_rights: "Not Found"@,
        expiration_time: 0,
        royalty_percentage: 0,
        is_active: false,
    }
}

impl Clone for License {
    fn clone(&self) -> (r: Self)
        ensures
            r == *self,
    {
        License {
            licensee: self.licensee.clone(),
            usage_rights: self.usage_rights.clone(),
            expiration_time: self.expiration_time,
            royalty_percentage: self.royalty_percentage,
            is_active: self.is_active,
        }
    }
}

impl Clone for DigitalAsset {
    fn clone(&self) -> (r: Self)
        ensures
            r == *self,
    {
        DigitalAsset {
            asset_id: self.asset_id,
            title: self.title.clone(),
            description: self.description.clone(),
            owner: self.owner.clone(),
        }
    }
}

impl License {
    /// The inactive placeholder returned for an asset without a license.
    pub fn not_found() -> (r: License)
        ensures
            r@ == license_not_found(),
    {
        License {
            licensee: String::from_str("Unknown"),
            usage_rights: String::from_str("Not Found"),
            expiration_time: 0,
            royalty_percentage: 0,
            is_active: false,
        }
    }
}

impl DigitalAsset {
    /// The placeholder returned for an asset id that holds no asset.
    pub fn not_found() -> (r: DigitalAsset)
        ensures
            r@ == asset_not_found(),
    {
        DigitalAsset {
            asset_id: 0,
            title: String::from_str("Not Found"),
            description: String::from_str("Not Found"),
            owner: String::from_str("Unknown"),
        }
    }
}

/// Key of an asset record in the store.
#[derive(Clone, Copy, Debug, PartialEq, Eq, Structural)]
pub enum Assetbook {
    Asset(u64),
}

/// Key of a license record in the store.
#[derive(Clone, Copy, Debug, PartialEq, Eq, Structural)]
pub enum Licensebook {
    License(u64),
}

impl Assetbook {
    pub open spec fn id(self) -> u64 {
        match self {
            Assetbook::Asset(id) => id,
        }
    }
}

impl Licensebook {
    pub open spec fn id(self) -> u64 {
        match self {
            Licensebook::License(id) => id,
        }
    }
}

/// Why a license transition was refused.
#[derive(Clone, Copy, Debug, PartialEq, Eq, Structural)]
pub enum LicenseError {
    /// The license is active already.
    AlreadyActive,
    /// The license is inactive already, or was never created.
    AlreadyInactive,
}

} // verus!
