//! The ledger as a mathematical state, and each operation as a function
//! from one state to the next or to the error that it reports.

use crate::accounts::{amount_in, total_of};
use crate::asset::AssetView;
use crate::error::LedgerError;
use crate::text::is_blank_text;
use vstd::prelude::*;

verus! {

/// The share of each sale that accrues to the creator as royalty: one part in this many.
pub const ROYALTY_DIVISOR: u64 = 10;

/// The royalty that a sale at `price` accrues, rounded down.
pub open spec fn royalty_on(price: u64) -> u64 {
    price / ROYALTY_DIVISOR
}

/// What the mint makes of a listing, given which of its texts are blank.
pub open spec fn listing_verdict(
    title_blank: bool,
    description_blank: bool,
    price: u64,
) -> Result<(), LedgerError> {
    if title_blank {
        Err(LedgerError::EmptyTitle)
    } else if description_blank {
        Err(LedgerError::EmptyDescription)
    } else if price == 0 {
        Err(LedgerError::ZeroPrice)
    } else {
        Ok(())
    }
}

/// Which assets a listing asks for.
pub enum Wanted {
    /// Every asset.
    All,
    /// The assets that are still active.
    Active,
    /// The assets that the given identity owns.
    OwnedBy(Seq<u8>),
}

impl Wanted {
    /// Whether the listing asks for `asset`.
    pub open spec fn admits(self, asset: AssetView) -> bool {
        match self {
            Wanted::All => true,
            Wanted::Active => asset.is_active,
            Wanted::OwnedBy(owner) => asset.owner == owner,
        }
    }
}

/// Everything the ledger holds.
pub struct LedgerState {
    /// The assets by identifier.
    pub assets: Map<u64, AssetView>,
    /// The identifier that the next mint issues.
    pub next_id: u64,
    /// The balance accounts by holder.
    pub balances: Map<Seq<u8>, u64>,
    /// The royalty accruals by creator.
    pub royalties: Map<Seq<u8>, u64>,
}

impl LedgerState {
    /// The ledger at start: nothing minted, no accounts.
    pub open spec fn empty() -> LedgerState {
        LedgerState {
            assets: Map::empty(),
            next_id: 0,
            balances: Map::empty(),
            royalties: Map::empty(),
        }
    }

    /// What holds of every ledger: an asset is stored under its own
    /// identifier, that identifier has been issued, and the asset is valid;
    /// and there are finitely many accounts.
    pub open spec fn inv(self) -> bool {
        &&& forall|id: u64| #[trigger]
            self.assets.contains_key(id) ==> {
                &&& id < self.next_id
                &&& self.assets[id].id == id
                &&& self.assets[id].valid()
            }
        &&& self.balances.dom().finite()
        &&& self.royalties.dom().finite()
    }

    /// The sum of all balances.
    pub open spec fn total_balance(self) -> nat {
        total_of(self.balances)
    }

    /// The sum of all royalty accruals.
    pub open spec fn total_royalty(self) -> nat {
        total_of(self.royalties)
    }

    /// The balance of `who`.
    pub open spec fn balance_of(self, who: Seq<u8>) -> u64 {
        amount_in(self.balances, who)
    }

    /// The royalty accrued to `who`.
    pub open spec fn royalty_of(self, who: Seq<u8>) -> u64 {
        amount_in(self.royalties, who)
    }

    /// The wanted assets among those with an identifier below `bound`, by
    /// ascending identifier.
    pub open spec fn selection_below(self, bound: nat, wanted: Wanted) -> Seq<AssetView>
        decreases bound,
    {
        if bound == 0 {
            Seq::empty()
        } else {
            let id = (bound - 1) as u64;
            let before = self.selection_below((bound - 1) as nat, wanted);
            if self.assets.contains_key(id) && wanted.admits(self.assets[id]) {
                before.push(self.assets[id])
            } else {
                before
            }
        }
    }

    /// The wanted assets of the ledger, by ascending identifier.
    pub open spec fn selection(self, wanted: Wanted) -> Seq<AssetView> {
        self.selection_below(self.next_id as nat, wanted)
    }

    /// What a selection holds: every entry is a wanted asset of the ledger
    /// with an identifier below the bound, the identifiers ascend strictly,
    /// and no wanted asset below the bound is missing.
    pub proof fn lemma_selection_below(self, bound: nat, wanted: Wanted)
        requires
            self.inv(),
            bound <= self.next_id,
        ensures
            forall|at: int|
                0 <= at < self.selection_below(bound, wanted).len() ==> {
                    let asset = #[trigger] self.selection_below(bound, wanted)[at];
                    &&& asset.id < bound
                    &&& self.assets.contains_key(asset.id)
                    &&& self.assets[asset.id] == asset
                    &&& wanted.admits(asset)
                },
            forall|a: int, b: int|
                0 <= a < b < self.selection_below(bound, wanted).len() ==> (
                #[trigger] self.selection_below(bound, wanted)[a]).id < (
                #[trigger] self.selection_below(bound, wanted)[b]).id,
            forall|id: u64|
                id < bound && #[trigger] self.assets.contains_key(id) && wanted.admits(
                    self.assets[id],
                ) ==> exists|at: int|
                    0 <= at < self.selection_below(bound, wanted).len() && (
                    #[trigger] self.selection_below(bound, wanted)[at]).id == id,
        decreases bound,
    {
        if bound > 0 {
            let last = (bound - 1) as u64;
            let before = self.selection_below((bound - 1) as nat, wanted);
            let listed = self.selection_below(bound, wanted);
            self.lemma_selection_below((bound - 1) as nat, wanted);
            assert forall|id: u64|
                id < bound && #[trigger] self.assets.contains_key(id) && wanted.admits(
                    self.assets[id],
                ) implies exists|at: int|
                0 <= at < listed.len() && (#[trigger] listed[at]).id == id by {
                if id == last {
                    assert(listed[listed.len() - 1].id == id);
                } else {
                    let at = choose|at: int|
                        0 <= at < before.len() && (#[trigger] before[at]).id == id;
                    assert(listed[at].id == id);
                }
            }
        }
    }

    /// Minting: the listing is checked, then the next identifier is issued
    /// to a new asset that the caller creates and owns. A rejected listing
    /// issues no identifier.
    pub open spec fn mint(
        self,
        caller: Seq<u8>,
        title: Seq<char>,
        description: Seq<char>,
        price: u64,
        unlock_duration: Option<u64>,
        metadata: Map<String, String>,
    ) -> Result<(u64, LedgerState), LedgerError> {
        match listing_verdict(is_blank_text(title), is_blank_text(description), price) {
            Err(error) => Err(error),
            Ok(_) => if self.next_id == u64::MAX {
                Err(LedgerError::IdentifiersExhausted)
            } else {
                let id = self.next_id;
                let asset = AssetView::minted(
                    id,
                    caller,
                    title,
                    description,
                    price,
                    unlock_duration,
                    metadata,
                );
                Ok(
                    (
                        id,
                        LedgerState {
                            assets: self.assets.insert(id, asset),
                            next_id: (id + 1) as u64,
                            ..self
                        },
                    ),
                )
            },
        }
    }

    /// Purchase: the buyer pays the price, the creator, whoever owned the
    /// asset, receives it and accrues the royalty, and the buyer owns the
    /// asset, which is no longer listed.
    pub open spec fn purchase(self, caller: Seq<u8>, id: u64) -> Result<LedgerState, LedgerError> {
        if !self.assets.contains_key(id) {
            Err(LedgerError::AssetNotFound)
        } else {
            let asset = self.assets[id];
            if !asset.is_active {
                Err(LedgerError::InactiveAsset)
            } else if caller == asset.owner {
                Err(LedgerError::SelfPurchase)
            } else if self.balance_of(caller) < asset.price {
                Err(LedgerError::InsufficientBalance)
            } else {
                let debited = self.balances.insert(
                    caller,
                    (self.balance_of(caller) - asset.price) as u64,
                );
                let credit = amount_in(debited, asset.creator) + asset.price;
                let accrual = self.royalty_of(asset.creator) + royalty_on(asset.price);
                if credit > u64::MAX || accrual > u64::MAX {
                    Err(LedgerError::AccountOverflow)
                } else {
                    Ok(
                        LedgerState {
                            assets: self.assets.insert(id, asset.held_by(caller)),
                            next_id: self.next_id,
                            balances: debited.insert(asset.creator, credit as u64),
                            royalties: self.royalties.insert(asset.creator, accrual as u64),
                        },
                    )
                }
            }
        }
    }

    /// Listing for resale: the owner names a positive price.
    pub open spec fn set_resale_price(self, caller: Seq<u8>, id: u64, price: u64) -> Result<
        LedgerState,
        LedgerError,
    > {
        if price == 0 {
            Err(LedgerError::ZeroResalePrice)
        } else if !self.assets.contains_key(id) {
            Err(LedgerError::AssetNotFound)
        } else if self.assets[id].owner != caller {
            Err(LedgerError::NotOwner)
        } else {
            Ok(
                LedgerState {
                    assets: self.assets.insert(id, self.assets[id].listed_at(price)),
                    ..self
                },
            )
        }
    }

    /// Deactivation: the creator retires the asset for good.
    pub open spec fn deactivate(self, caller: Seq<u8>, id: u64) -> Result<
        LedgerState,
        LedgerError,
    > {
        if !self.assets.contains_key(id) {
            Err(LedgerError::AssetNotFound)
        } else if self.assets[id].creator != caller {
            Err(LedgerError::NotCreator)
        } else {
            Ok(
                LedgerState {
                    assets: self.assets.insert(id, self.assets[id].deactivated()),
                    ..self
                },
            )
        }
    }

    /// Transfer: the owner gives an active asset to somebody else; no money moves.
    pub open spec fn transfer(self, caller: Seq<u8>, id: u64, new_owner: Seq<u8>) -> Result<
        LedgerState,
        LedgerError,
    > {
        if !self.assets.contains_key(id) {
            Err(LedgerError::AssetNotFound)
        } else if self.assets[id].owner != caller {
            Err(LedgerError::NotOwner)
        } else if !self.assets[id].is_active {
            Err(LedgerError::InactiveAsset)
        } else if new_owner == caller {
            Err(LedgerError::SelfTransfer)
        } else {
            Ok(
                LedgerState {
                    assets: self.assets.insert(id, self.assets[id].held_by(new_owner)),
                    ..self
                },
            )
        }
    }

    /// Credit: `amount` is added to the balance of `who`.
    pub open spec fn credit(self, who: Seq<u8>, amount: u64) -> Result<LedgerState, LedgerError> {
        if self.balance_of(who) + amount > u64::MAX {
            Err(LedgerError::AccountOverflow)
        } else {
            Ok(
                LedgerState {
                    balances: self.balances.insert(who, (self.balance_of(who) + amount) as u64),
                    ..self
                },
            )
        }
    }
}

} // verus!
