//! The minted, ownable unit of the marketplace.

use crate::identity::Identity;
use crate::text::is_blank_text;
use std::collections::HashMap;
use vstd::prelude::*;

verus! {

/// A skill asset as the ledger stores it and hands it out.
#[derive(Debug, PartialEq, Eq)]
pub struct Asset {
    /// The identifier the ledger issued at mint time.
    pub id: u64,
    /// What the asset is called.
    pub title: String,
    /// What the asset teaches.
    pub description: String,
    /// Who minted the asset; never changes.
    pub creator: Identity,
    /// The price in the smallest currency unit, set at mint time.
    pub price: u64,
    /// How long the asset stays unlocked, in nanoseconds; the ledger only carries it.
    pub unlock_duration: Option<u64>,
    /// Free-form details; the ledger only carries them.
    pub metadata: HashMap<String, String>,
    /// Who holds the asset now.
    pub owner: Identity,
    /// The price at which the owner offers the asset, while it is listed.
    pub resale_price: Option<u64>,
    /// Whether the asset can still be bought and transferred.
    pub is_active: bool,
}

/// The mathematical content of an [`Asset`].
pub struct AssetView {
    pub id: u64,
    pub title: Seq<char>,
    pub description: Seq<char>,
    pub creator: Seq<u8>,
    pub price: u64,
    pub unlock_duration: Option<u64>,
    pub metadata: Map<String, String>,
    pub owner: Seq<u8>,
    pub resale_price: Option<u64>,
    pub is_active: bool,
}

impl AssetView {
    /// What the data model asks of every asset: texts that are not blank, a
    /// positive price and, while listed, a positive resale price.
    pub open spec fn valid(self) -> bool {
        &&& !is_blank_text(self.title)
        &&& !is_blank_text(self.description)
        &&& self.price > 0
        &&& self.resale_price matches Some(asked) ==> asked > 0
    }

    /// The asset as it leaves the mint: owned by its creator, not listed, active.
    pub open spec fn minted(
        id: u64,
        creator: Seq<u8>,
        title: Seq<char>,
        description: Seq<char>,
        price: u64,
        unlock_duration: Option<u64>,
        metadata: Map<String, String>,
    ) -> AssetView {
        AssetView {
            id,
            title,
            description,
            creator,
            price,
            unlock_duration,
            metadata,
            owner: creator,
            resale_price: None,
            is_active: true,
        }
    }

    /// The asset in the hands of `holder`; a change of hands ends the listing.
    pub open spec fn held_by(self, holder: Seq<u8>) -> AssetView {
        AssetView { owner: holder, resale_price: None, ..self }
    }

    /// The asset listed for resale at `asked`.
    pub open spec fn listed_at(self, asked: u64) -> AssetView {
        AssetView { resale_price: Some(asked), ..self }
    }

    /// The asset after deactivation.
    pub open spec fn deactivated(self) -> AssetView {
        AssetView { is_active: false, ..self }
    }
}

impl View for Asset {
    type V = AssetView;

    open spec fn view(&self) -> AssetView {
        AssetView {
            id: self.id,
            title: self.title@,
            description: self.description@,
            creator: self.creator@,
            price: self.price,
            unlock_duration: self.unlock_duration,
            metadata: self.metadata@,
            owner: self.owner@,
            resale_price: self.resale_price,
            is_active: self.is_active,
        }
    }
}

/// The mathematical content of a list of assets, place by place.
pub open spec fn views_of(assets: Seq<Asset>) -> Seq<AssetView> {
    assets.map_values(|asset: Asset| asset@)
}

impl Clone for Asset {
    fn clone(&self) -> (copy: Self)
        ensures
            copy@ == self@,
    {
        Asset {
            id: self.id,
            title: self.title.clone(),
            description: self.description.clone(),
            creator: self.creator.clone(),
            price: self.price,
            unlock_duration: self.unlock_duration,
            metadata: self.metadata.clone(),
            owner: self.owner.clone(),
            resale_price: self.resale_price,
            is_active: self.is_active,
        }
    }
}

} // verus!
