//! The ledger store and its operations.

use crate::accounts::AccountBook;
use crate::asset::{views_of, Asset, AssetView};
use crate::error::LedgerError;
use crate::identity::Identity;
use crate::model::{listing_verdict, LedgerState, Wanted, ROYALTY_DIVISOR};
use crate::snapshot::{
    assets_of, lemma_asset_is_listed, lemma_selection_records_assets, lists_id, place_of_id,
    Snapshot,
};
use crate::text::{is_blank, is_blank_text};
use std::collections::HashMap;
use vstd::prelude::*;

verus! {

/// Decides on a listing from which of its texts are blank and from its price.
pub fn check_listing(title_blank: bool, description_blank: bool, price: u64) -> (verdict: Result<
    (),
    LedgerError,
>)
    ensures
        verdict == listing_verdict(title_blank, description_blank, price),
{
    if title_blank {
        Err(LedgerError::EmptyTitle)
    } else if description_blank {
        Err(LedgerError::EmptyDescription)
    } else if price == 0 {
        Err(LedgerError::ZeroPrice)
    } else {
        Ok(())
    }
}

/// Decides whether a title, a description and a price make a listing: both
/// texts must hold more than white space and the price must be positive.
pub fn validate_listing(title: &str, description: &str, price: u64) -> (verdict: Result<
    (),
    LedgerError,
>)
    ensures
        verdict == listing_verdict(is_blank_text(title@), is_blank_text(description@), price),
{
    check_listing(is_blank(title), is_blank(description), price)
}

/// Which assets a listing asks for.
enum Filter<'a> {
    All,
    Active,
    OwnedBy(&'a Identity),
}

impl<'a> Filter<'a> {
    /// What the filter asks for.
    spec fn wanted(&self) -> Wanted {
        match self {
            Filter::All => Wanted::All,
            Filter::Active => Wanted::Active,
            Filter::OwnedBy(owner) => Wanted::OwnedBy(owner@),
        }
    }

    /// Whether the listing asks for `asset`.
    fn admits(&self, asset: &Asset) -> (wanted: bool)
        ensures
            wanted == self.wanted().admits(asset@),
    {
        match self {
            Filter::All => true,
            Filter::Active => asset.is_active,
            Filter::OwnedBy(owner) => asset.owner.same(owner),
        }
    }
}

/// The store: all assets, the balance and royalty accounts, and the
/// identifier that the next mint issues.
#[derive(Debug)]
pub struct Ledger {
    assets: HashMap<u64, Asset>,
    next_id: u64,
    balances: AccountBook,
    royalties: AccountBook,
}

impl View for Ledger {
    type V = LedgerState;

    closed spec fn view(&self) -> LedgerState {
        LedgerState {
            assets: self.assets@.map_values(|asset: Asset| asset@),
            next_id: self.next_id,
            balances: self.balances@,
            royalties: self.royalties@,
        }
    }
}

impl Default for Ledger {
    fn default() -> (ledger: Ledger)
        ensures
            ledger@ == LedgerState::empty(),
    {
        Ledger::new()
    }
}

impl Ledger {
    /// Every ledger meets the invariant of the model.
    #[verifier::type_invariant]
    pub open spec fn sound(self) -> bool {
        self@.inv()
    }

    /// An empty ledger.
    pub fn new() -> (ledger: Ledger)
        ensures
            ledger@ == LedgerState::empty(),
    {
        let assets: HashMap<u64, Asset> = HashMap::new();
        let balances = AccountBook::new();
        let royalties = AccountBook::new();
        assert(assets@.map_values(|asset: Asset| asset@) =~= Map::<u64, AssetView>::empty());
        Ledger { assets, next_id: 0, balances, royalties }
    }

    /// The identifier that the next mint issues.
    pub fn next_id(&self) -> (id: u64)
        ensures
            id == self@.next_id,
    {
        self.next_id
    }

    /// The balance of `who`; zero for a holder without an account.
    pub fn balance_of(&self, who: &Identity) -> (amount: u64)
        ensures
            amount == self@.balance_of(who@),
    {
        self.balances.amount_of(who)
    }

    /// The royalty accrued to `who`; zero for a creator without sales.
    pub fn royalty_of(&self, who: &Identity) -> (amount: u64)
        ensures
            amount == self@.royalty_of(who@),
    {
        self.royalties.amount_of(who)
    }

    /// The asset with identifier `id`, if there is one.
    pub fn get(&self, id: u64) -> (found: Option<Asset>)
        ensures
            match found {
                Some(asset) => self@.assets.contains_key(id) && asset@ == self@.assets[id],
                None => !self@.assets.contains_key(id),
            },
    {
        match self.assets.get(&id) {
            Some(asset) => Some(asset.clone()),
            None => None,
        }
    }

    /// The assets that a filter admits, by ascending identifier.
    fn select(&self, filter: Filter<'_>) -> (listed: Vec<Asset>)
        ensures
            views_of(listed@) == self@.selection(filter.wanted()),
    {
        let mut listed: Vec<Asset> = Vec::new();
        let mut id: u64 = 0;
        assert(views_of(listed@) =~= self@.selection_below(0, filter.wanted()));
        while id < self.next_id
            invariant
                id <= self.next_id,
                views_of(listed@) == self@.selection_below(id as nat, filter.wanted()),
            decreases self.next_id - id,
        {
            let ghost before = listed@;
            match self.assets.get(&id) {
                Some(asset) => {
                    if filter.admits(asset) {
                        listed.push(asset.clone());
                        assert(views_of(listed@) =~= views_of(before).push(self@.assets[id]));
                    }
                },
                None => {},
            }
            id += 1;
        }
        listed
    }

    /// The assets that `who` owns, by ascending identifier.
    pub fn list_by_owner(&self, who: &Identity) -> (listed: Vec<Asset>)
        ensures
            views_of(listed@) == self@.selection(Wanted::OwnedBy(who@)),
    {
        self.select(Filter::OwnedBy(who))
    }

    /// The assets that are still active, by ascending identifier.
    pub fn list_active(&self) -> (listed: Vec<Asset>)
        ensures
            views_of(listed@) == self@.selection(Wanted::Active),
    {
        self.select(Filter::Active)
    }

    /// Records everything the ledger holds, the assets by ascending identifier.
    pub fn snapshot(&self) -> (record: Snapshot)
        ensures
            record.captures(self@),
            views_of(record.assets@) == self@.selection(Wanted::All),
    {
        let record = Snapshot {
            assets: self.select(Filter::All),
            next_id: self.next_id,
            balances: self.balances.entries(),
            royalties: self.royalties.entries(),
        };
        proof {
            use_type_invariant(self);
            lemma_selection_records_assets(self@, record.assets@);
        }
        record
    }

    /// Rebuilds the ledger that a snapshot describes; `None` when the
    /// snapshot is not consistent.
    pub fn restore(record: Snapshot) -> (restored: Option<Ledger>)
        ensures
            match record.restored() {
                Some(state) => restored matches Some(ledger) && ledger@ == state,
                None => restored is None,
            },
    {
        let Snapshot { assets: listed, next_id, balances, royalties } = record;
        let balances = match AccountBook::from_entries(balances) {
            Some(book) => book,
            None => {
                return None;
            },
        };
        let royalties = match AccountBook::from_entries(royalties) {
            Some(book) => book,
            None => {
                return None;
            },
        };
        let mut assets: HashMap<u64, Asset> = HashMap::new();
        let mut at: usize = 0;
        while at < listed.len()
            invariant
                at <= listed@.len(),
                listed@ == record.assets@,
                next_id == record.next_id,
                forall|k: int|
                    0 <= k < at ==> (#[trigger] listed@[k]).id < next_id && listed@[k]@.valid(),
                forall|a: int, b: int|
                    0 <= a < b < at ==> (#[trigger] listed@[a]).id != (#[trigger] listed@[b]).id,
                forall|id: u64| #[trigger]
                    assets@.contains_key(id) <==> lists_id(listed@.take(at as int), id),
                forall|k: int|
                    0 <= k < at ==> assets@.contains_key((#[trigger] listed@[k]).id)
                        && assets@[listed@[k].id]@ == listed@[k]@,
            decreases listed@.len() - at,
        {
            let asset = &listed[at];
            let priced = match asset.resale_price {
                Some(asked) => asked > 0,
                None => true,
            };
            if asset.id >= next_id || !priced || validate_listing(
                asset.title.as_str(),
                asset.description.as_str(),
                asset.price,
            ).is_err() {
                return None;
            }
            if assets.contains_key(&asset.id) {
                proof {
                    let earlier = place_of_id(listed@.take(at as int), asset.id);
                    assert(listed@[earlier].id == listed@[at as int].id);
                }
                return None;
            }
            let ghost before = assets@;
            assets.insert(asset.id, asset.clone());
            proof {
                let shorter = listed@.take(at as int);
                let longer = listed@.take(at + 1);
                assert forall|a: int, b: int| 0 <= a < b < at + 1 implies (#[trigger] listed@[a]).id
                    != (#[trigger] listed@[b]).id by {
                    if b == at {
                        assert(shorter[a].id == listed@[a].id);
                    }
                }
                assert forall|id: u64| #[trigger]
                    assets@.contains_key(id) <==> lists_id(longer, id) by {
                    if lists_id(longer, id) {
                        let k = place_of_id(longer, id);
                        if k < at {
                            assert(shorter[k].id == id);
                        }
                    }
                    if before.contains_key(id) {
                        let k = place_of_id(shorter, id);
                        assert(longer[k].id == id);
                    }
                    assert(longer[at as int].id == asset.id);
                }
            }
            at += 1;
        }
        proof {
            balances.lemma_finite();
            royalties.lemma_finite();
            assert(listed@.take(at as int) =~= listed@);
            let stored = assets@.map_values(|asset: Asset| asset@);
            assert forall|id: u64| stored.contains_key(id) implies stored[id] == assets_of(
                listed@,
            )[id] && id < next_id && stored[id].id == id && stored[id].valid() by {
                lemma_asset_is_listed(listed@, place_of_id(listed@, id));
            }
            assert(stored =~= assets_of(listed@));
        }
        Some(Ledger { assets, next_id, balances, royalties })
    }

    /// Issues the next identifier; `None` once every identifier has been issued.
    fn allocate_id(&mut self) -> (issued: Option<u64>)
        ensures
            match issued {
                Some(id) => id == old(self)@.next_id && id < u64::MAX && *final(self) == (Ledger {
                    next_id: (id + 1) as u64,
                    ..*old(self)
                }),
                None => old(self)@.next_id == u64::MAX && *final(self) == *old(self),
            },
    {
        proof {
            use_type_invariant(&*self);
        }
        if self.next_id == u64::MAX {
            return None;
        }
        let id = self.next_id;
        self.next_id = id + 1;
        Some(id)
    }

    /// Stores `asset` under its identifier, in place of what was there.
    fn put(&mut self, asset: Asset)
        requires
            asset.id < old(self)@.next_id,
            asset@.valid(),
        ensures
            final(self)@ == (LedgerState {
                assets: old(self)@.assets.insert(asset.id, asset@),
                ..old(self)@
            }),
    {
        proof {
            use_type_invariant(&*self);
        }
        let ghost stored = asset@;
        let mut assets: HashMap<u64, Asset> = HashMap::new();
        std::mem::swap(&mut assets, &mut self.assets);
        assets.insert(asset.id, asset);
        proof {
            assert(assets@.map_values(|asset: Asset| asset@) =~= old(self)@.assets.insert(
                stored.id,
                stored,
            ));
        }
        self.assets = assets;
    }

    /// Puts `amount` on the balance account of `who`.
    fn set_balance(&mut self, who: &Identity, amount: u64)
        ensures
            final(self)@ == (LedgerState {
                balances: old(self)@.balances.insert(who@, amount),
                ..old(self)@
            }),
    {
        proof {
            use_type_invariant(&*self);
        }
        let mut balances = AccountBook::new();
        std::mem::swap(&mut balances, &mut self.balances);
        balances.set(who, amount);
        proof {
            balances.lemma_finite();
        }
        self.balances = balances;
    }

    /// Puts `amount` on the royalty account of `who`.
    fn set_royalty(&mut self, who: &Identity, amount: u64)
        ensures
            final(self)@ == (LedgerState {
                royalties: old(self)@.royalties.insert(who@, amount),
                ..old(self)@
            }),
    {
        proof {
            use_type_invariant(&*self);
        }
        let mut royalties = AccountBook::new();
        std::mem::swap(&mut royalties, &mut self.royalties);
        royalties.set(who, amount);
        proof {
            royalties.lemma_finite();
        }
        self.royalties = royalties;
    }

    /// Mints an asset that `caller` creates and owns, and returns its identifier.
    pub fn mint(
        &mut self,
        caller: &Identity,
        title: String,
        description: String,
        price: u64,
        unlock_duration: Option<u64>,
        metadata: HashMap<String, String>,
    ) -> (minted: Result<u64, LedgerError>)
        ensures
            match old(self)@.mint(
                caller@,
                title@,
                description@,
                price,
                unlock_duration,
                metadata@,
            ) {
                Ok((id, next)) => minted == Ok::<u64, LedgerError>(id) && final(self)@ == next,
                Err(error) => minted == Err::<u64, LedgerError>(error) && final(self)@ == old(
                    self,
                )@,
            },
    {
        proof {
            use_type_invariant(&*self);
        }
        match validate_listing(title.as_str(), description.as_str(), price) {
            Err(error) => {
                return Err(error);
            },
            Ok(_) => {},
        }
        let id = match self.allocate_id() {
            Some(id) => id,
            None => {
                return Err(LedgerError::IdentifiersExhausted);
            },
        };
        let asset = Asset {
            id,
            title,
            description,
            creator: caller.clone(),
            price,
            unlock_duration,
            metadata,
            owner: caller.clone(),
            resale_price: None,
            is_active: true,
        };
        self.put(asset);
        Ok(id)
    }

    /// Sells the asset `id` to `caller` at its price.
    pub fn purchase(&mut self, caller: &Identity, id: u64) -> (done: Result<(), LedgerError>)
        ensures
            match old(self)@.purchase(caller@, id) {
                Ok(next) => done is Ok && final(self)@ == next,
                Err(error) => done == Err::<(), LedgerError>(error) && final(self)@ == old(self)@,
            },
    {
        proof {
            use_type_invariant(&*self);
        }
        let asset = match self.assets.get(&id) {
            Some(asset) => asset.clone(),
            None => {
                return Err(LedgerError::AssetNotFound);
            },
        };
        if !asset.is_active {
            return Err(LedgerError::InactiveAsset);
        }
        if caller.same(&asset.owner) {
            return Err(LedgerError::SelfPurchase);
        }
        let buyer_balance = self.balances.amount_of(caller);
        if buyer_balance < asset.price {
            return Err(LedgerError::InsufficientBalance);
        }
        let remaining = buyer_balance - asset.price;
        let creator_balance = if caller.same(&asset.creator) {
            remaining
        } else {
            self.balances.amount_of(&asset.creator)
        };
        let royalty = asset.price / ROYALTY_DIVISOR;
        let accrued = self.royalties.amount_of(&asset.creator);
        if creator_balance > u64::MAX - asset.price || accrued > u64::MAX - royalty {
            return Err(LedgerError::AccountOverflow);
        }
        self.set_balance(caller, remaining);
        self.set_balance(&asset.creator, creator_balance + asset.price);
        self.set_royalty(&asset.creator, accrued + royalty);
        let mut sold = asset;
        sold.owner = caller.clone();
        sold.resale_price = None;
        self.put(sold);
        Ok(())
    }

    /// Lists the asset `id` for resale at `price`.
    pub fn set_resale_price(&mut self, caller: &Identity, id: u64, price: u64) -> (done: Result<
        (),
        LedgerError,
    >)
        ensures
            match old(self)@.set_resale_price(caller@, id, price) {
                Ok(next) => done is Ok && final(self)@ == next,
                Err(error) => done == Err::<(), LedgerError>(error) && final(self)@ == old(self)@,
            },
    {
        proof {
            use_type_invariant(&*self);
        }
        if price == 0 {
            return Err(LedgerError::ZeroResalePrice);
        }
        let mut listed = match self.assets.get(&id) {
            Some(asset) => asset.clone(),
            None => {
                return Err(LedgerError::AssetNotFound);
            },
        };
        if !listed.owner.same(caller) {
            return Err(LedgerError::NotOwner);
        }
        listed.resale_price = Some(price);
        self.put(listed);
        Ok(())
    }

    /// Deactivates the asset `id`; an inactive asset stays inactive.
    pub fn deactivate(&mut self, caller: &Identity, id: u64) -> (done: Result<(), LedgerError>)
        ensures
            match old(self)@.deactivate(caller@, id) {
                Ok(next) => done is Ok && final(self)@ == next,
                Err(error) => done == Err::<(), LedgerError>(error) && final(self)@ == old(self)@,
            },
    {
        proof {
            use_type_invariant(&*self);
        }
        let mut retired = match self.assets.get(&id) {
            Some(asset) => asset.clone(),
            None => {
                return Err(LedgerError::AssetNotFound);
            },
        };
        if !retired.creator.same(caller) {
            return Err(LedgerError::NotCreator);
        }
        retired.is_active = false;
        self.put(retired);
        Ok(())
    }

    /// Gives the asset `id` to `new_owner` without payment.
    pub fn transfer(&mut self, caller: &Identity, id: u64, new_owner: &Identity) -> (done: Result<
        (),
        LedgerError,
    >)
        ensures
            match old(self)@.transfer(caller@, id, new_owner@) {
                Ok(next) => done is Ok && final(self)@ == next,
                Err(error) => done == Err::<(), LedgerError>(error) && final(self)@ == old(self)@,
            },
    {
        proof {
            use_type_invariant(&*self);
        }
        let mut given = match self.assets.get(&id) {
            Some(asset) => asset.clone(),
            None => {
                return Err(LedgerError::AssetNotFound);
            },
        };
        if !given.owner.same(caller) {
            return Err(LedgerError::NotOwner);
        }
        if !given.is_active {
            return Err(LedgerError::InactiveAsset);
        }
        if new_owner.same(caller) {
            return Err(LedgerError::SelfTransfer);
        }
        given.owner = new_owner.clone();
        given.resale_price = None;
        self.put(given);
        Ok(())
    }

    /// Adds `amount` to the balance of `who`.
    pub fn credit(&mut self, who: &Identity, amount: u64) -> (done: Result<(), LedgerError>)
        ensures
            match old(self)@.credit(who@, amount) {
                Ok(next) => done is Ok && final(self)@ == next,
                Err(error) => done == Err::<(), LedgerError>(error) && final(self)@ == old(self)@,
            },
    {
        let balance = self.balances.amount_of(who);
        if balance > u64::MAX - amount {
            return Err(LedgerError::AccountOverflow);
        }
        self.set_balance(who, balance + amount);
        Ok(())
    }
}

} // verus!
