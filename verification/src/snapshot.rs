//! The whole ledger as plain values, for saving and restoring.

use crate::accounts::{book_of, distinct_holders, Account};
use crate::asset::{views_of, Asset, AssetView};
use crate::model::{LedgerState, Wanted};
use vstd::prelude::*;

verus! {

/// Everything a ledger holds, as lists: what is written out before a
/// shutdown and read back after a restart.
#[derive(Debug, PartialEq, Eq)]
pub struct Snapshot {
    /// The assets, each once.
    pub assets: Vec<Asset>,
    /// The identifier that the next mint issues.
    pub next_id: u64,
    /// The balance accounts, each holder once.
    pub balances: Vec<Account>,
    /// The royalty accruals, each creator once.
    pub royalties: Vec<Account>,
}

/// Whether an asset with identifier `id` is listed.
pub open spec fn lists_id(assets: Seq<Asset>, id: u64) -> bool {
    exists|at: int| 0 <= at < assets.len() && (#[trigger] assets[at]).id == id
}

/// The place of a listed asset with identifier `id`, where there is one.
pub open spec fn place_of_id(assets: Seq<Asset>, id: u64) -> int {
    choose|at: int| 0 <= at < assets.len() && (#[trigger] assets[at]).id == id
}

/// No two listed assets share an identifier.
pub open spec fn distinct_ids(assets: Seq<Asset>) -> bool {
    forall|a: int, b: int|
        0 <= a < b < assets.len() ==> (#[trigger] assets[a]).id != (#[trigger] assets[b]).id
}

/// The listed assets by identifier.
pub open spec fn assets_of(assets: Seq<Asset>) -> Map<u64, AssetView> {
    Map::new(|id: u64| lists_id(assets, id), |id: u64| assets[place_of_id(assets, id)]@)
}

impl Snapshot {
    /// A snapshot is consistent when it describes a ledger: no asset and no
    /// account is listed twice, and every asset is valid and has an
    /// identifier that has been issued.
    pub open spec fn consistent(&self) -> bool {
        &&& distinct_ids(self.assets@)
        &&& forall|at: int|
            0 <= at < self.assets@.len() ==> (#[trigger] self.assets@[at]).id < self.next_id
                && self.assets@[at]@.valid()
        &&& distinct_holders(self.balances@)
        &&& distinct_holders(self.royalties@)
    }

    /// The state that the snapshot describes.
    pub open spec fn state(&self) -> LedgerState {
        LedgerState {
            assets: assets_of(self.assets@),
            next_id: self.next_id,
            balances: book_of(self.balances@),
            royalties: book_of(self.royalties@),
        }
    }

    /// Whether the snapshot is a faithful record of `state`.
    pub open spec fn captures(&self, state: LedgerState) -> bool {
        self.consistent() && self.state() == state
    }

    /// The state of the ledger that restoring the snapshot gives, or `None`
    /// where the snapshot is refused.
    pub open spec fn restored(&self) -> Option<LedgerState> {
        if self.consistent() {
            Some(self.state())
        } else {
            None
        }
    }
}

/// Among assets with distinct identifiers, the asset at a place is the one
/// listed under its identifier.
pub proof fn lemma_asset_is_listed(assets: Seq<Asset>, at: int)
    requires
        distinct_ids(assets),
        0 <= at < assets.len(),
    ensures
        lists_id(assets, assets[at].id),
        place_of_id(assets, assets[at].id) == at,
        assets_of(assets).contains_key(assets[at].id),
        assets_of(assets)[assets[at].id] == assets[at]@,
{
    let id = assets[at].id;
    let found = place_of_id(assets, id);
    assert(0 <= found < assets.len() && assets[found].id == id);
    if found < at {
        assert(assets[found].id != assets[at].id);
    } else if at < found {
        assert(assets[at].id != assets[found].id);
    }
}

/// The assets of a ledger, listed by ascending identifier, record just the
/// assets of that ledger.
pub proof fn lemma_selection_records_assets(state: LedgerState, listed: Seq<Asset>)
    requires
        state.inv(),
        views_of(listed) == state.selection(Wanted::All),
    ensures
        distinct_ids(listed),
        forall|at: int|
            0 <= at < listed.len() ==> (#[trigger] listed[at]).id < state.next_id
                && listed[at]@.valid(),
        assets_of(listed) == state.assets,
{
    let views = state.selection(Wanted::All);
    state.lemma_selection_below(state.next_id as nat, Wanted::All);
    assert forall|at: int| 0 <= at < listed.len() implies (#[trigger] listed[at])@
        == views[at] by {
        assert(views_of(listed)[at] == listed[at]@);
    }
    assert forall|a: int, b: int| 0 <= a < b < listed.len() implies (#[trigger] listed[a]).id != (
    #[trigger] listed[b]).id by {
        assert(views[a].id < views[b].id);
    }
    assert forall|at: int| 0 <= at < listed.len() implies (#[trigger] listed[at]).id
        < state.next_id && listed[at]@.valid() by {
        assert(state.assets.contains_key(views[at].id));
    }
    assert forall|id: u64| assets_of(listed).contains_key(id) == state.assets.contains_key(
        id,
    ) by {
        if lists_id(listed, id) {
            let at = place_of_id(listed, id);
            assert(state.assets.contains_key(views[at].id));
        }
        if state.assets.contains_key(id) {
            let at = choose|at: int| 0 <= at < views.len() && (#[trigger] views[at]).id == id;
            assert(listed[at].id == id);
        }
    }
    assert forall|id: u64| assets_of(listed).contains_key(id) implies assets_of(listed)[id]
        == state.assets[id] by {
        let at = place_of_id(listed, id);
        lemma_asset_is_listed(listed, at);
        assert(state.assets[views[at].id] == views[at]);
    }
    assert(assets_of(listed) =~= state.assets);
}

} // verus!
