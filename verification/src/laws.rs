//! What holds of the ledger whatever is asked of it.
//!
//! The laws are stated over the model: [`LedgerState`] and the functions
//! that the contracts of the ledger's operations name.

use crate::accounts::{amount_in, lemma_total_after_insert};
use crate::asset::AssetView;
use crate::error::{ErrorKind, LedgerError};
use crate::model::{royalty_on, LedgerState, Wanted};
use crate::snapshot::Snapshot;
use crate::text::is_blank_text;
use crate::topup::{settlement, TransferOutcome};
use vstd::prelude::*;

verus! {

/// One request to the ledger.
pub enum Operation {
    /// Mint an asset for the caller.
    Mint {
        caller: Seq<u8>,
        title: Seq<char>,
        description: Seq<char>,
        price: u64,
        unlock_duration: Option<u64>,
        metadata: Map<String, String>,
    },
    /// Sell the asset to the caller.
    Purchase { caller: Seq<u8>, id: u64 },
    /// List the caller's asset for resale.
    SetResalePrice { caller: Seq<u8>, id: u64, price: u64 },
    /// Retire the asset that the caller created.
    Deactivate { caller: Seq<u8>, id: u64 },
    /// Give the caller's asset to a new owner.
    Transfer { caller: Seq<u8>, id: u64, new_owner: Seq<u8> },
    /// Credit a balance, as a settled top-up does.
    Credit { who: Seq<u8>, amount: u64 },
}

impl LedgerState {
    /// What a request makes of the ledger: the next state or the error.
    pub open spec fn outcome(self, request: Operation) -> Result<LedgerState, LedgerError> {
        match request {
            Operation::Mint { caller, title, description, price, unlock_duration, metadata } => {
                match self.mint(caller, title, description, price, unlock_duration, metadata) {
                    Ok((_, next)) => Ok(next),
                    Err(error) => Err(error),
                }
            },
            Operation::Purchase { caller, id } => self.purchase(caller, id),
            Operation::SetResalePrice { caller, id, price } => {
                self.set_resale_price(caller, id, price)
            },
            Operation::Deactivate { caller, id } => self.deactivate(caller, id),
            Operation::Transfer { caller, id, new_owner } => self.transfer(caller, id, new_owner),
            Operation::Credit { who, amount } => self.credit(who, amount),
        }
    }

    /// The identifier that a request issues: a mint that succeeds issues one.
    pub open spec fn issued(self, request: Operation) -> Option<u64> {
        match request {
            Operation::Mint { caller, title, description, price, unlock_duration, metadata } => {
                match self.mint(caller, title, description, price, unlock_duration, metadata) {
                    Ok((id, _)) => Some(id),
                    Err(_) => None,
                }
            },
            _ => None,
        }
    }

    /// The ledger after a request: a refused request leaves it as it was.
    pub open spec fn after(self, request: Operation) -> LedgerState {
        match self.outcome(request) {
            Ok(next) => next,
            Err(_) => self,
        }
    }

    /// The ledger after a run of requests, first to last.
    pub open spec fn after_all(self, requests: Seq<Operation>) -> LedgerState
        decreases requests.len(),
    {
        if requests.len() == 0 {
            self
        } else {
            self.after_all(requests.drop_last()).after(requests.last())
        }
    }

    /// Whether `later` carries on from this ledger: no identifier is taken
    /// back, no asset and no account disappears, an asset keeps what was
    /// fixed at mint time, an inactive asset stays inactive, and no royalty
    /// shrinks.
    pub open spec fn carried_on_by(self, later: LedgerState) -> bool {
        &&& later.next_id >= self.next_id
        &&& forall|id: u64| #[trigger]
            self.assets.contains_key(id) ==> {
                &&& later.assets.contains_key(id)
                &&& later.assets[id].creator == self.assets[id].creator
                &&& later.assets[id].price == self.assets[id].price
                &&& later.assets[id].title == self.assets[id].title
                &&& later.assets[id].description == self.assets[id].description
                &&& later.assets[id].unlock_duration == self.assets[id].unlock_duration
                &&& later.assets[id].metadata == self.assets[id].metadata
                &&& !self.assets[id].is_active ==> !later.assets[id].is_active
            }
        &&& forall|who: Seq<u8>| #[trigger]
            self.balances.contains_key(who) ==> later.balances.contains_key(who)
        &&& forall|who: Seq<u8>| #[trigger]
            self.royalties.contains_key(who) ==> later.royalties.contains_key(who)
        &&& forall|who: Seq<u8>| #[trigger] later.royalty_of(who) >= self.royalty_of(who)
    }
}

/// Every request, granted or refused, keeps the invariant of the ledger and
/// carries the ledger on.
pub proof fn law_requests_carry_the_ledger_on(state: LedgerState, request: Operation)
    requires
        state.inv(),
    ensures
        state.after(request).inv(),
        state.carried_on_by(state.after(request)),
{
}

/// So does every run of requests.
pub proof fn law_runs_carry_the_ledger_on(state: LedgerState, requests: Seq<Operation>)
    requires
        state.inv(),
    ensures
        state.after_all(requests).inv(),
        state.carried_on_by(state.after_all(requests)),
    decreases requests.len(),
{
    if requests.len() > 0 {
        let before = state.after_all(requests.drop_last());
        law_runs_carry_the_ledger_on(state, requests.drop_last());
        law_requests_carry_the_ledger_on(before, requests.last());
    }
}

/// A listing with a title and a description that are not blank and with a
/// positive price is minted as long as an identifier is left. The
/// identifier issued is not in use and is greater than the identifier of
/// every asset minted before.
pub proof fn law_mint_issues_a_fresh_identifier(
    state: LedgerState,
    caller: Seq<u8>,
    title: Seq<char>,
    description: Seq<char>,
    price: u64,
    unlock_duration: Option<u64>,
    metadata: Map<String, String>,
)
    requires
        state.inv(),
        !is_blank_text(title),
        !is_blank_text(description),
        price > 0,
        state.next_id < u64::MAX,
    ensures
        state.mint(caller, title, description, price, unlock_duration, metadata) matches Ok(
            (id, next),
        ) && {
            &&& !state.assets.contains_key(id)
            &&& forall|earlier: u64| #[trigger] state.assets.contains_key(earlier) ==> earlier < id
            &&& next.next_id > id
            &&& next.assets.contains_key(id)
            &&& next.assets[id] == AssetView::minted(
                id,
                caller,
                title,
                description,
                price,
                unlock_duration,
                metadata,
            )
        },
{
}

/// Of two requests that issue an identifier, the later one issues the
/// greater, whatever was asked of the ledger in between.
pub proof fn law_identifiers_increase(
    state: LedgerState,
    first: Operation,
    between: Seq<Operation>,
    second: Operation,
)
    requires
        state.inv(),
        state.issued(first) is Some,
        state.after(first).after_all(between).issued(second) is Some,
    ensures
        state.issued(first).unwrap() < state.after(first).after_all(between).issued(
            second,
        ).unwrap(),
{
    law_requests_carry_the_ledger_on(state, first);
    law_runs_carry_the_ledger_on(state.after(first), between);
}

/// A purchase of an active asset by somebody other than its owner fails for
/// want of funds exactly when the buyer's balance is below the price.
/// Otherwise it succeeds unless an account of the creator cannot hold what
/// would be credited to it. On success the buyer owns the asset and has
/// paid exactly the price, and the creator, whoever the owner was, has
/// received exactly the price and accrued a tenth of it, rounded down, as
/// royalty; no other account has changed.
pub proof fn law_purchase_settles_exactly(state: LedgerState, buyer: Seq<u8>, id: u64)
    requires
        state.inv(),
        state.assets.contains_key(id),
        state.assets[id].is_active,
        state.assets[id].owner != buyer,
    ensures
        state.balance_of(buyer) < state.assets[id].price <==> state.purchase(buyer, id) == Err::<
            LedgerState,
            LedgerError,
        >(LedgerError::InsufficientBalance),
        state.purchase(buyer, id) is Ok <==> {
            let creator = state.assets[id].creator;
            let price = state.assets[id].price;
            &&& state.balance_of(buyer) >= price
            &&& buyer != creator ==> state.balance_of(creator) + price <= u64::MAX
            &&& state.royalty_of(creator) + price / 10 <= u64::MAX
        },
        state.purchase(buyer, id) is Err ==> state.purchase(buyer, id) == Err::<
            LedgerState,
            LedgerError,
        >(LedgerError::InsufficientBalance) || state.purchase(buyer, id) == Err::<
            LedgerState,
            LedgerError,
        >(LedgerError::AccountOverflow),
        state.purchase(buyer, id) matches Ok(next) ==> {
            let creator = state.assets[id].creator;
            let price = state.assets[id].price;
            &&& next.assets[id].owner == buyer
            &&& buyer != creator ==> next.balance_of(buyer) == state.balance_of(buyer) - price
            &&& buyer != creator ==> next.balance_of(creator) == state.balance_of(creator) + price
            &&& buyer == creator ==> next.balance_of(buyer) == state.balance_of(buyer)
            &&& next.royalty_of(creator) == state.royalty_of(creator) + price / 10
            &&& forall|other: Seq<u8>|
                other != buyer && other != creator ==> #[trigger] next.balance_of(other)
                    == state.balance_of(other)
            &&& forall|other: Seq<u8>|
                other != creator ==> #[trigger] next.royalty_of(other) == state.royalty_of(other)
        },
{
}

/// Nobody can buy what they own: the purchase fails and nothing changes.
pub proof fn law_self_purchase_fails(state: LedgerState, owner: Seq<u8>, id: u64)
    requires
        state.assets.contains_key(id),
        state.assets[id].owner == owner,
    ensures
        state.purchase(owner, id) is Err,
        state.assets[id].is_active ==> state.purchase(owner, id) == Err::<
            LedgerState,
            LedgerError,
        >(LedgerError::SelfPurchase),
        state.after(Operation::Purchase { caller: owner, id }) == state,
{
}

/// A change of hands ends the listing: after a successful purchase or
/// transfer the asset has its new owner and no resale price.
pub proof fn law_change_of_hands_ends_listing(
    state: LedgerState,
    caller: Seq<u8>,
    id: u64,
    new_owner: Seq<u8>,
)
    ensures
        state.purchase(caller, id) matches Ok(next) ==> {
            &&& next.assets.contains_key(id)
            &&& next.assets[id].owner == caller
            &&& next.assets[id].resale_price is None
        },
        state.transfer(caller, id, new_owner) matches Ok(next) ==> {
            &&& next.assets.contains_key(id)
            &&& next.assets[id].owner == new_owner
            &&& next.assets[id].resale_price is None
        },
{
}

/// Deactivation by the creator succeeds, changes nothing but the flag, and
/// leaves the asset inactive.
pub proof fn law_deactivation_retires(state: LedgerState, creator: Seq<u8>, id: u64)
    requires
        state.assets.contains_key(id),
        state.assets[id].creator == creator,
    ensures
        state.deactivate(creator, id) matches Ok(next) && {
            &&& next == LedgerState {
                assets: state.assets.insert(id, state.assets[id].deactivated()),
                ..state
            }
            &&& next.assets.contains_key(id)
            &&& !next.assets[id].is_active
        },
{
}

/// An inactive asset is still there and stays inactive whatever is asked of
/// the ledger. Every purchase of it fails because it is inactive; so does
/// every transfer by its owner, while a transfer by anybody else fails for
/// want of ownership.
pub proof fn law_inactive_assets_stay_put(
    state: LedgerState,
    id: u64,
    requests: Seq<Operation>,
    caller: Seq<u8>,
    new_owner: Seq<u8>,
)
    requires
        state.inv(),
        state.assets.contains_key(id),
        !state.assets[id].is_active,
    ensures
        state.after_all(requests).assets.contains_key(id),
        !state.after_all(requests).assets[id].is_active,
        state.after_all(requests).purchase(caller, id) == Err::<LedgerState, LedgerError>(
            LedgerError::InactiveAsset,
        ),
        state.after_all(requests).transfer(caller, id, new_owner) == Err::<
            LedgerState,
            LedgerError,
        >(
            if state.after_all(requests).assets[id].owner == caller {
                LedgerError::InactiveAsset
            } else {
                LedgerError::NotOwner
            },
        ),
{
    law_runs_carry_the_ledger_on(state, requests);
}

/// Roles are enforced. Deactivation by anybody but the creator, and a
/// resale price or a transfer by anybody but the owner, fail with an
/// authorization error and change nothing.
pub proof fn law_roles_are_enforced(
    state: LedgerState,
    caller: Seq<u8>,
    id: u64,
    price: u64,
    new_owner: Seq<u8>,
)
    requires
        state.assets.contains_key(id),
    ensures
        state.assets[id].creator != caller ==> {
            &&& state.deactivate(caller, id) == Err::<LedgerState, LedgerError>(
                LedgerError::NotCreator,
            )
            &&& state.after(Operation::Deactivate { caller, id }) == state
        },
        state.assets[id].owner != caller && price > 0 ==> {
            &&& state.set_resale_price(caller, id, price) == Err::<LedgerState, LedgerError>(
                LedgerError::NotOwner,
            )
            &&& state.after(Operation::SetResalePrice { caller, id, price }) == state
        },
        state.assets[id].owner != caller ==> {
            &&& state.transfer(caller, id, new_owner) == Err::<LedgerState, LedgerError>(
                LedgerError::NotOwner,
            )
            &&& state.after(Operation::Transfer { caller, id, new_owner }) == state
        },
        LedgerError::NotCreator.kind_of() == ErrorKind::Authorization,
        LedgerError::NotOwner.kind_of() == ErrorKind::Authorization,
{
}

/// A top-up moves money only when the funds-transfer service has settled
/// the transfer. Then it adds exactly the amount to the caller's balance
/// and changes nothing else; a failed transfer changes nothing at all.
pub proof fn law_top_up_settles_exactly(
    state: LedgerState,
    who: Seq<u8>,
    amount: u64,
    outcome: TransferOutcome,
)
    ensures
        settlement(state, who, amount, outcome) is Ok <==> outcome is Settled && state.balance_of(
            who,
        ) + amount <= u64::MAX,
        settlement(state, who, amount, outcome) matches Ok(next) ==> {
            &&& next.balance_of(who) == state.balance_of(who) + amount
            &&& forall|other: Seq<u8>|
                other != who ==> #[trigger] next.balance_of(other) == state.balance_of(other)
            &&& next.assets == state.assets
            &&& next.royalties == state.royalties
            &&& next.next_id == state.next_id
        },
        outcome matches TransferOutcome::Failed { detail } ==> settlement(
            state,
            who,
            amount,
            outcome,
        ) == Err::<LedgerState, LedgerError>(LedgerError::TransferFailed { detail }),
{
}

/// Money is conserved. A purchase moves money between accounts and leaves
/// the sum of all balances as it was, and so does every request but a
/// credit, which adds exactly its amount. The sum of all royalties grows
/// with every purchase by a tenth of the price, rounded down, and with
/// nothing else.
pub proof fn law_money_is_conserved(state: LedgerState, request: Operation)
    requires
        state.inv(),
    ensures
        state.after(request).total_balance() == state.total_balance() + (match request {
            Operation::Credit { amount, .. } if state.outcome(request) is Ok => amount,
            _ => 0,
        }),
        state.after(request).total_royalty() == state.total_royalty() + (match request {
            Operation::Purchase { id, .. } if state.outcome(request) is Ok => royalty_on(
                state.assets[id].price,
            ),
            _ => 0,
        }),
{
    match request {
        Operation::Purchase { caller, id } => {
            if state.purchase(caller, id) is Ok {
                let asset = state.assets[id];
                let paid = (state.balance_of(caller) - asset.price) as u64;
                let debited = state.balances.insert(caller, paid);
                let credit = (amount_in(debited, asset.creator) + asset.price) as u64;
                let accrual = (state.royalty_of(asset.creator) + royalty_on(asset.price)) as u64;
                lemma_total_after_insert(state.balances, caller, paid);
                lemma_total_after_insert(debited, asset.creator, credit);
                lemma_total_after_insert(state.royalties, asset.creator, accrual);
            }
        },
        Operation::Credit { who, amount } => {
            if state.credit(who, amount) is Ok {
                let raised = (state.balance_of(who) + amount) as u64;
                lemma_total_after_insert(state.balances, who, raised);
            }
        },
        _ => {},
    }
}

/// A listing is exact: it holds every asset of the ledger that is asked
/// for, each as the ledger stores it and each once, by ascending
/// identifier, and it holds nothing else.
pub proof fn law_listings_are_exact(state: LedgerState, wanted: Wanted)
    requires
        state.inv(),
    ensures
        forall|at: int|
            0 <= at < state.selection(wanted).len() ==> {
                let asset = #[trigger] state.selection(wanted)[at];
                &&& state.assets.contains_key(asset.id)
                &&& state.assets[asset.id] == asset
                &&& wanted.admits(asset)
            },
        forall|a: int, b: int|
            0 <= a < b < state.selection(wanted).len() ==> (#[trigger] state.selection(
                wanted,
            )[a]).id < (#[trigger] state.selection(wanted)[b]).id,
        forall|id: u64| #[trigger]
            state.assets.contains_key(id) && wanted.admits(state.assets[id]) ==> exists|at: int|
                0 <= at < state.selection(wanted).len() && (#[trigger] state.selection(
                    wanted,
                )[at]).id == id,
{
    state.lemma_selection_below(state.next_id as nat, wanted);
}

/// A snapshot that records a ledger restores to that very ledger: the same
/// assets, balances, royalties and next identifier.
pub proof fn law_snapshot_round_trip(record: Snapshot, state: LedgerState)
    requires
        record.captures(state),
    ensures
        record.restored() == Some(state),
{
}

} // verus!
