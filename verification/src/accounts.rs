//! Accounts keyed by identity: balances and royalty accruals.

use crate::identity::Identity;
use vstd::prelude::*;

verus! {

/// One account: its holder and what the account holds.
#[derive(Debug, PartialEq, Eq)]
pub struct Account {
    /// Whose account this is.
    pub holder: Identity,
    /// The amount on the account, in the smallest currency unit.
    pub amount: u64,
}

impl Clone for Account {
    fn clone(&self) -> (copy: Self)
        ensures
            copy.holder@ == self.holder@,
            copy.amount == self.amount,
    {
        Account { holder: self.holder.clone(), amount: self.amount }
    }
}

/// Whether some entry belongs to `who`.
pub open spec fn holds(entries: Seq<Account>, who: Seq<u8>) -> bool {
    exists|at: int| 0 <= at < entries.len() && (#[trigger] entries[at]).holder@ == who
}

/// The place of an entry that belongs to `who`, where there is one.
pub open spec fn place_of(entries: Seq<Account>, who: Seq<u8>) -> int {
    choose|at: int| 0 <= at < entries.len() && (#[trigger] entries[at]).holder@ == who
}

/// No two entries belong to the same holder.
pub open spec fn distinct_holders(entries: Seq<Account>) -> bool {
    forall|a: int, b: int|
        0 <= a < b < entries.len() ==> (#[trigger] entries[a]).holder@ != (
        #[trigger] entries[b]).holder@
}

/// The accounts that a list of entries describes: one for each holder listed.
pub open spec fn book_of(entries: Seq<Account>) -> Map<Seq<u8>, u64> {
    Map::new(
        |who: Seq<u8>| holds(entries, who),
        |who: Seq<u8>| entries[place_of(entries, who)].amount,
    )
}

/// What `who` has in `book`; a holder without an account has nothing.
pub open spec fn amount_in(book: Map<Seq<u8>, u64>, who: Seq<u8>) -> u64 {
    if book.contains_key(who) {
        book[who]
    } else {
        0
    }
}

/// The sum of all accounts of a book with finitely many holders.
pub open spec fn total_of(book: Map<Seq<u8>, u64>) -> nat
    decreases book.dom().len(),
    when book.dom().finite()
{
    if book.dom().len() == 0 {
        0
    } else {
        let who = book.dom().choose();
        book[who] as nat + total_of(book.remove(who))
    }
}

/// Accounts by holder. A holder without an account has nothing.
#[derive(Debug, PartialEq, Eq)]
pub struct AccountBook {
    entries: Vec<Account>,
}

impl View for AccountBook {
    type V = Map<Seq<u8>, u64>;

    closed spec fn view(&self) -> Map<Seq<u8>, u64> {
        book_of(self.entries@)
    }
}

impl AccountBook {
    #[verifier::type_invariant]
    spec fn one_account_each(self) -> bool {
        distinct_holders(self.entries@)
    }

    /// A book has finitely many accounts.
    pub proof fn lemma_finite(&self)
        ensures
            self@.dom().finite(),
    {
        lemma_book_is_finite(self.entries@);
    }

    /// A book without accounts.
    pub fn new() -> (book: AccountBook)
        ensures
            book@ == Map::<Seq<u8>, u64>::empty(),
    {
        let book = AccountBook { entries: Vec::new() };
        assert(book@ =~= Map::<Seq<u8>, u64>::empty());
        book
    }

    fn find(&self, who: &Identity) -> (place: Option<usize>)
        ensures
            match place {
                Some(at) => at < self.entries@.len() && self.entries@[at as int].holder@ == who@,
                None => !holds(self.entries@, who@),
            },
    {
        let mut at: usize = 0;
        while at < self.entries.len()
            invariant
                at <= self.entries@.len(),
                forall|k: int| 0 <= k < at ==> (#[trigger] self.entries@[k]).holder@ != who@,
            decreases self.entries@.len() - at,
        {
            if self.entries[at].holder.same(who) {
                return Some(at);
            }
            at += 1;
        }
        None
    }

    /// What `who` has: the amount on the account, or nothing without one.
    pub fn amount_of(&self, who: &Identity) -> (amount: u64)
        ensures
            amount == amount_in(self@, who@),
    {
        match self.find(who) {
            Some(at) => {
                proof {
                    use_type_invariant(self);
                    lemma_entry_is_account(self.entries@, at as int);
                }
                self.entries[at].amount
            },
            None => 0,
        }
    }

    /// Puts `amount` on the account of `who`, opening the account if need be.
    pub fn set(&mut self, who: &Identity, amount: u64)
        ensures
            final(self)@ == old(self)@.insert(who@, amount),
    {
        proof {
            use_type_invariant(&*self);
        }
        let entry = Account { holder: who.clone(), amount };
        let place = self.find(who);
        let mut entries: Vec<Account> = Vec::new();
        std::mem::swap(&mut entries, &mut self.entries);
        match place {
            Some(at) => {
                proof {
                    lemma_update_sets_account(entries@, at as int, entry);
                }
                entries.set(at, entry);
            },
            None => {
                proof {
                    lemma_push_opens_account(entries@, entry);
                }
                entries.push(entry);
            },
        }
        self.entries = entries;
    }

    /// The accounts as a list, each holder once.
    pub fn entries(&self) -> (listed: Vec<Account>)
        ensures
            distinct_holders(listed@),
            book_of(listed@) == self@,
    {
        let mut listed: Vec<Account> = Vec::new();
        let mut at: usize = 0;
        while at < self.entries.len()
            invariant
                at <= self.entries@.len(),
                listed@.len() == at,
                forall|k: int|
                    0 <= k < at ==> (#[trigger] listed@[k]).holder@ == self.entries@[k].holder@
                        && listed@[k].amount == self.entries@[k].amount,
            decreases self.entries@.len() - at,
        {
            listed.push(self.entries[at].clone());
            at += 1;
        }
        proof {
            use_type_invariant(self);
            lemma_same_accounts(self.entries@, listed@);
        }
        listed
    }

    /// The book that holds the given entries; `None` when a holder is listed twice.
    pub fn from_entries(entries: Vec<Account>) -> (made: Option<AccountBook>)
        ensures
            made is Some <==> distinct_holders(entries@),
            made matches Some(book) ==> book@ == book_of(entries@),
    {
        let mut upto: usize = 0;
        while upto < entries.len()
            invariant
                upto <= entries@.len(),
                distinct_holders(entries@.take(upto as int)),
            decreases entries@.len() - upto,
        {
            let mut before: usize = 0;
            while before < upto
                invariant
                    before <= upto < entries@.len(),
                    forall|k: int|
                        0 <= k < before ==> (#[trigger] entries@[k]).holder@
                            != entries@[upto as int].holder@,
                decreases upto - before,
            {
                if entries[before].holder.same(&entries[upto].holder) {
                    proof {
                        assert(entries@[before as int].holder@ == entries@[upto as int].holder@);
                    }
                    return None;
                }
                before += 1;
            }
            proof {
                let shorter = entries@.take(upto as int);
                let longer = entries@.take(upto + 1);
                assert forall|a: int, b: int| 0 <= a < b < longer.len() implies (
                #[trigger] longer[a]).holder@ != (#[trigger] longer[b]).holder@ by {
                    if b < upto {
                        assert(shorter[a].holder@ != shorter[b].holder@);
                    } else {
                        assert(entries@[a].holder@ != entries@[upto as int].holder@);
                    }
                }
            }
            upto += 1;
        }
        proof {
            assert(entries@.take(upto as int) =~= entries@);
        }
        Some(AccountBook { entries })
    }
}

/// The total of a book is the account of any one holder plus the total of
/// the others.
pub proof fn lemma_total_splits(book: Map<Seq<u8>, u64>, who: Seq<u8>)
    requires
        book.dom().finite(),
        book.contains_key(who),
    ensures
        total_of(book) == book[who] + total_of(book.remove(who)),
    decreases book.dom().len(),
{
    let chosen = book.dom().choose();
    if chosen != who {
        lemma_total_splits(book.remove(chosen), who);
        lemma_total_splits(book.remove(who), chosen);
        assert(book.remove(chosen).remove(who) =~= book.remove(who).remove(chosen));
    }
}

/// Setting one account changes the total by the difference on that account.
pub proof fn lemma_total_after_insert(book: Map<Seq<u8>, u64>, who: Seq<u8>, amount: u64)
    requires
        book.dom().finite(),
    ensures
        total_of(book.insert(who, amount)) == total_of(book) - amount_in(book, who) + amount,
{
    let after = book.insert(who, amount);
    lemma_total_splits(after, who);
    if book.contains_key(who) {
        lemma_total_splits(book, who);
        assert(after.remove(who) =~= book.remove(who));
    } else {
        assert(after.remove(who) =~= book);
    }
}

/// A list of entries describes finitely many accounts.
pub proof fn lemma_book_is_finite(entries: Seq<Account>)
    ensures
        book_of(entries).dom().finite(),
    decreases entries.len(),
{
    if entries.len() == 0 {
        assert(book_of(entries).dom() =~= Set::<Seq<u8>>::empty());
    } else {
        let shorter = entries.drop_last();
        let last = entries.last();
        lemma_book_is_finite(shorter);
        assert forall|who: Seq<u8>| holds(entries, who) <==> holds(shorter, who) || who
            == last.holder@ by {
            if holds(entries, who) {
                let at = place_of(entries, who);
                if at < shorter.len() {
                    assert(shorter[at].holder@ == who);
                }
            }
            if holds(shorter, who) {
                let at = place_of(shorter, who);
                assert(entries[at].holder@ == who);
            }
            assert(entries[entries.len() - 1].holder@ == last.holder@);
        }
        assert(book_of(entries).dom() =~= book_of(shorter).dom().insert(last.holder@));
    }
}

/// In a list with distinct holders, an entry is the account of its holder.
pub proof fn lemma_entry_is_account(entries: Seq<Account>, at: int)
    requires
        distinct_holders(entries),
        0 <= at < entries.len(),
    ensures
        holds(entries, entries[at].holder@),
        place_of(entries, entries[at].holder@) == at,
        book_of(entries).contains_key(entries[at].holder@),
        book_of(entries)[entries[at].holder@] == entries[at].amount,
{
    let who = entries[at].holder@;
    let found = place_of(entries, who);
    assert(0 <= found < entries.len() && entries[found].holder@ == who);
    if found < at {
        assert(entries[found].holder@ != entries[at].holder@);
    } else if at < found {
        assert(entries[at].holder@ != entries[found].holder@);
    }
}

/// Replacing the entry of a holder by one with a new amount sets that
/// holder's account and no other.
pub proof fn lemma_update_sets_account(entries: Seq<Account>, at: int, entry: Account)
    requires
        distinct_holders(entries),
        0 <= at < entries.len(),
        entry.holder@ == entries[at].holder@,
    ensures
        distinct_holders(entries.update(at, entry)),
        book_of(entries.update(at, entry)) == book_of(entries).insert(entry.holder@, entry.amount),
{
    let after = entries.update(at, entry);
    assert(distinct_holders(after)) by {
        assert forall|a: int, b: int| 0 <= a < b < after.len() implies (#[trigger] after[a]).holder@
            != (#[trigger] after[b]).holder@ by {
            assert(entries[a].holder@ != entries[b].holder@);
        }
    }
    let expected = book_of(entries).insert(entry.holder@, entry.amount);
    assert forall|who: Seq<u8>| book_of(after).contains_key(who) == expected.contains_key(
        who,
    ) by {
        if holds(after, who) {
            let found = place_of(after, who);
            assert(entries[found].holder@ == who);
        }
        if holds(entries, who) {
            let found = place_of(entries, who);
            assert(after[found].holder@ == who);
        }
        assert(after[at].holder@ == entry.holder@);
    }
    assert forall|who: Seq<u8>| book_of(after).contains_key(who) implies book_of(after)[who]
        == expected[who] by {
        let found = place_of(after, who);
        lemma_entry_is_account(after, found);
        if found != at {
            lemma_entry_is_account(entries, found);
        }
    }
    assert(book_of(after) =~= expected);
}

/// Appending an entry for a holder without one opens that holder's account
/// and touches no other.
pub proof fn lemma_push_opens_account(entries: Seq<Account>, entry: Account)
    requires
        distinct_holders(entries),
        !holds(entries, entry.holder@),
    ensures
        distinct_holders(entries.push(entry)),
        book_of(entries.push(entry)) == book_of(entries).insert(entry.holder@, entry.amount),
{
    let after = entries.push(entry);
    let last = entries.len() as int;
    assert(distinct_holders(after)) by {
        assert forall|a: int, b: int| 0 <= a < b < after.len() implies (#[trigger] after[a]).holder@
            != (#[trigger] after[b]).holder@ by {
            if b < last {
                assert(entries[a].holder@ != entries[b].holder@);
            } else {
                assert(entries[a].holder@ != entry.holder@);
            }
        }
    }
    let expected = book_of(entries).insert(entry.holder@, entry.amount);
    assert forall|who: Seq<u8>| book_of(after).contains_key(who) == expected.contains_key(
        who,
    ) by {
        if holds(after, who) {
            let found = place_of(after, who);
            if found < last {
                assert(entries[found].holder@ == who);
            }
        }
        if holds(entries, who) {
            let found = place_of(entries, who);
            assert(after[found].holder@ == who);
        }
        assert(after[last].holder@ == entry.holder@);
    }
    assert forall|who: Seq<u8>| book_of(after).contains_key(who) implies book_of(after)[who]
        == expected[who] by {
        let found = place_of(after, who);
        lemma_entry_is_account(after, found);
        if found != last {
            lemma_entry_is_account(entries, found);
        }
    }
    assert(book_of(after) =~= expected);
}

/// Two lists with the same holders and amounts, place by place, describe
/// the same accounts.
pub proof fn lemma_same_accounts(first: Seq<Account>, second: Seq<Account>)
    requires
        distinct_holders(first),
        first.len() == second.len(),
        forall|at: int|
            0 <= at < second.len() ==> (#[trigger] second[at]).holder@ == first[at].holder@
                && second[at].amount == first[at].amount,
    ensures
        distinct_holders(second),
        book_of(second) == book_of(first),
{
    assert(distinct_holders(second)) by {
        assert forall|a: int, b: int| 0 <= a < b < second.len() implies (
        #[trigger] second[a]).holder@ != (#[trigger] second[b]).holder@ by {
            assert(first[a].holder@ != first[b].holder@);
        }
    }
    assert forall|who: Seq<u8>| book_of(second).contains_key(who) == book_of(first).contains_key(
        who,
    ) by {
        if holds(second, who) {
            let found = place_of(second, who);
            assert(first[found].holder@ == who);
        }
        if holds(first, who) {
            let found = place_of(first, who);
            assert(second[found].holder@ == who);
        }
    }
    assert forall|who: Seq<u8>| book_of(second).contains_key(who) implies book_of(second)[who]
        == book_of(first)[who] by {
        let found = place_of(second, who);
        lemma_entry_is_account(second, found);
        lemma_entry_is_account(first, found);
    }
    assert(book_of(second) =~= book_of(first));
}

} // verus!
