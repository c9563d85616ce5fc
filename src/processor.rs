use vstd::prelude::*;

use core::ops::{Add, Neg, Sub};
use std::collections::HashMap;

use crate::amount::{in_amount_range, lemma_of_scaled_view, lemma_view_in_range, Amount};
use crate::ledger::{step, step_fits, AccountView, LedgerView};
use crate::transaction::{ClientId, Transaction, TransactionId, TransactionType};

verus! {

broadcast use {vstd::std_specs::hash::group_hash_axioms, lemma_of_scaled_view, lemma_view_in_range};

/// The balances of one client.
#[derive(Debug, Clone, Copy)]
pub struct Account {
    pub available_funds: Amount,
    pub held_funds: Amount,
    pub is_locked: bool,
}

impl View for Account {
    type V = AccountView;

    open spec fn view(&self) -> AccountView {
        AccountView {
            available: self.available_funds@,
            held: self.held_funds@,
            locked: self.is_locked,
        }
    }
}

impl Account {
    /// A new account: nothing available, nothing held, unlocked.
    pub fn new() -> (r: Account)
        ensures
            r@ == AccountView::fresh(),
    {
        Account { available_funds: Amount::zero(), held_funds: Amount::zero(), is_locked: false }
    }

    /// Total funds (available plus held), or `None` when the sum leaves the
    /// range of an amount.
    pub fn total_funds(&self) -> (r: Option<Amount>)
        ensures
            r is Some <==> in_amount_range(self@.total()),
            r matches Some(t) ==> t@ == self@.total(),
    {
        self.available_funds.checked_add(&self.held_funds)
    }
}

impl Default for Account {
    fn default() -> (r: Account)
        ensures
            r@ == AccountView::fresh(),
    {
        Account::new()
    }
}

/// The engine: every client's account and the log of signed amounts of
/// deposits and applied withdrawals.
pub struct PaymentProcessor {
    accounts: HashMap<ClientId, Account>,
    compressed_transactions: HashMap<TransactionId, Amount>,
    /// The clients that have an account, in the order their accounts were opened.
    clients: Vec<ClientId>,
}

impl View for PaymentProcessor {
    type V = LedgerView;

    closed spec fn view(&self) -> LedgerView {
        LedgerView {
            accounts: self.accounts@.map_values(|a: Account| a@),
            log: self.compressed_transactions@.map_values(|x: Amount| x@),
        }
    }
}

impl PaymentProcessor {
    /// `clients` lists each client with an account exactly once.
    pub closed spec fn wf(&self) -> bool {
        &&& self.clients@.no_duplicates()
        &&& forall|c: ClientId| #[trigger]
            self.accounts@.contains_key(c) <==> self.clients@.contains(c)
    }

    /// An engine with no accounts and an empty log.
    pub fn new() -> (r: PaymentProcessor)
        ensures
            r.wf(),
            r@ == LedgerView::empty(),
    {
        let r = PaymentProcessor {
            accounts: HashMap::new(),
            compressed_transactions: HashMap::new(),
            clients: Vec::new(),
        };
        assert(r@.accounts =~= Map::empty());
        assert(r@.log =~= Map::empty());
        r
    }

    /// The signed amount logged under `transaction_id`, if any.
    fn find_transaction(&self, transaction_id: TransactionId) -> (r: Option<Amount>)
        ensures
            r is Some <==> self@.log.contains_key(transaction_id),
            r matches Some(x) ==> x@ == self@.log[transaction_id],
    {
        match self.compressed_transactions.get(&transaction_id) {
            Some(x) => Some(*x),
            None => None,
        }
    }

    /// Logs `amount` under `transaction_id`.
    fn store_transaction(&mut self, transaction_id: TransactionId, amount: Amount)
        requires
            old(self).wf(),
        ensures
            final(self).wf(),
            final(self)@ == (LedgerView {
                accounts: old(self)@.accounts,
                log: old(self)@.log.insert(transaction_id, amount@),
            }),
    {
        self.compressed_transactions.insert(transaction_id, amount);
        assert(self@.log =~= old(self)@.log.insert(transaction_id, amount@));
    }

    /// The account of `client_id`, opened first if the client has none.
    fn get_account(&mut self, client_id: ClientId) -> (r: Account)
        requires
            old(self).wf(),
        ensures
            final(self).wf(),
            r@ == old(self)@.account(client_id),
            final(self)@ == old(self)@.with_account(client_id, r@),
    {
        match self.accounts.get(&client_id) {
            Some(a) => {
                let a = *a;
                assert(self@.accounts =~= old(self)@.accounts.insert(client_id, a@));
                a
            },
            None => {
                let a = Account::new();
                self.accounts.insert(client_id, a);
                self.clients.push(client_id);
                assert(self@.accounts =~= old(self)@.accounts.insert(client_id, a@));
                assert forall|c: ClientId| #[trigger]
                    self.accounts@.contains_key(c) <==> self.clients@.contains(c) by {
                    if c != client_id {
                        assert(old(self).accounts@.contains_key(c) <==> old(self).clients@.contains(
                            c,
                        ));
                        assert(self.clients@.contains(c) <==> old(self).clients@.contains(c)) by {
                            if self.clients@.contains(c) {
                                let i = choose|i: int|
                                    0 <= i < self.clients@.len() && self.clients@[i] == c;
                                assert(i < old(self).clients@.len());
                                assert(old(self).clients@[i] == c);
                            }
                            if old(self).clients@.contains(c) {
                                let i = choose|i: int|
                                    0 <= i < old(self).clients@.len() && old(self).clients@[i]
                                        == c;
                                assert(self.clients@[i] == c);
                            }
                        }
                    } else {
                        assert(self.clients@[self.clients@.len() - 1] == c);
                    }
                }
                a
            },
        }
    }

    /// Stores `account` as the account of `client_id`, which has one already.
    fn put_account(&mut self, client_id: ClientId, account: Account)
        requires
            old(self).wf(),
            old(self)@.accounts.contains_key(client_id),
        ensures
            final(self).wf(),
            final(self)@ == old(self)@.with_account(client_id, account@),
    {
        self.accounts.insert(client_id, account);
        assert(self@.accounts =~= old(self)@.accounts.insert(client_id, account@));
    }

    /// Applies one transaction, as `step` describes: a deposit adds to the
    /// available funds and logs its amount; a withdrawal that the available
    /// funds cover subtracts from them and logs the negated amount, and one
    /// they do not cover is ignored; a dispute, resolve or chargeback moves the
    /// logged amount between available and held (a chargeback drops it from
    /// held and locks the account), and is ignored when its id is not logged.
    /// The client's account is opened first if it has none.
    pub fn process(&mut self, transaction: &Transaction)
        requires
            old(self).wf(),
            step_fits(old(self)@, transaction@),
        ensures
            final(self).wf(),
            final(self)@ == step(old(self)@, transaction@),
    {
        let client_id = transaction.client_id();
        let transaction_id = transaction.transaction_id();
        let amount = transaction.amount();
        let ghost expected = step(old(self)@, transaction@);
        let mut account = self.get_account(client_id);
        match transaction.ty() {
            TransactionType::Deposit => {
                account.available_funds = account.available_funds.add(amount);
                self.put_account(client_id, account);
                assert(self@.accounts =~= expected.accounts);
                self.store_transaction(transaction_id, amount);
            },
            TransactionType::Withdrawal => {
                // Withdrawals beyond the available funds are ignored.
                if account.available_funds.at_least(&amount) {
                    account.available_funds = account.available_funds.sub(amount);
                    self.put_account(client_id, account);
                    assert(self@.accounts =~= expected.accounts);
                    // The log keeps a withdrawal as its negated amount, so that
                    // disputes treat both kinds of transaction alike.
                    self.store_transaction(transaction_id, amount.neg());
                }
            },
            TransactionType::Dispute => {
                if let Some(logged) = self.find_transaction(transaction_id) {
                    account.available_funds = account.available_funds.sub(logged);
                    account.held_funds = account.held_funds.add(logged);
                    self.put_account(client_id, account);
                    assert(self@.accounts =~= expected.accounts);
                }
            },
            TransactionType::Resolve => {
                if let Some(logged) = self.find_transaction(transaction_id) {
                    account.available_funds = account.available_funds.add(logged);
                    account.held_funds = account.held_funds.sub(logged);
                    self.put_account(client_id, account);
                    assert(self@.accounts =~= expected.accounts);
                }
            },
            TransactionType::Chargeback => {
                if let Some(logged) = self.find_transaction(transaction_id) {
                    account.held_funds = account.held_funds.sub(logged);
                    account.is_locked = true;
                    self.put_account(client_id, account);
                    assert(self@.accounts =~= expected.accounts);
                }
            },
        }
    }

    /// Whether `process(transaction)` keeps every balance and logged amount
    /// within the range of an amount, which `process` requires.
    pub fn can_process(&self, transaction: &Transaction) -> (r: bool)
        requires
            self.wf(),
        ensures
            r == step_fits(self@, transaction@),
    {
        let amount = transaction.amount();
        let account = match self.account(transaction.client_id()) {
            Some(a) => a,
            None => Account::new(),
        };
        let available = account.available_funds;
        let held = account.held_funds;
        let logged = self.find_transaction(transaction.transaction_id());
        match transaction.ty() {
            TransactionType::Deposit => available.checked_add(&amount).is_some(),
            TransactionType::Withdrawal => {
                if available.at_least(&amount) {
                    available.checked_sub(&amount).is_some() && amount.scaled() != i64::MIN
                } else {
                    true
                }
            },
            TransactionType::Dispute => match logged {
                Some(x) => available.checked_sub(&x).is_some() && held.checked_add(&x).is_some(),
                None => true,
            },
            TransactionType::Resolve => match logged {
                Some(x) => available.checked_add(&x).is_some() && held.checked_sub(&x).is_some(),
                None => true,
            },
            TransactionType::Chargeback => match logged {
                Some(x) => held.checked_sub(&x).is_some(),
                None => true,
            },
        }
    }

    /// The account of `client_id`, if it has one.
    pub fn account(&self, client_id: ClientId) -> (r: Option<Account>)
        ensures
            r is Some <==> self@.accounts.contains_key(client_id),
            r matches Some(a) ==> a@ == self@.accounts[client_id],
    {
        match self.accounts.get(&client_id) {
            Some(a) => Some(*a),
            None => None,
        }
    }

    /// Every account with its client, each client once, in the order the
    /// accounts were opened.
    pub fn snapshot(&self) -> (r: Vec<(ClientId, Account)>)
        requires
            self.wf(),
        ensures
            r@.map_values(|e: (ClientId, Account)| e.0).no_duplicates(),
            r@.map_values(|e: (ClientId, Account)| e.0).to_set() == self@.accounts.dom(),
            forall|i: int|
                0 <= i < r@.len() ==> self@.accounts.contains_key(#[trigger] r@[i].0)
                    && self@.accounts[r@[i].0] == r@[i].1@,
    {
        let mut r: Vec<(ClientId, Account)> = Vec::new();
        let mut i: usize = 0;
        while i < self.clients.len()
            invariant
                i <= self.clients@.len(),
                self.wf(),
                r@.len() == i,
                forall|j: int| 0 <= j < i ==> #[trigger] r@[j].0 == self.clients@[j],
                forall|j: int|
                    0 <= j < r@.len() ==> self@.accounts.contains_key(#[trigger] r@[j].0)
                        && self@.accounts[r@[j].0] == r@[j].1@,
            decreases self.clients@.len() - i,
        {
            let c = self.clients[i];
            assert(self.clients@.contains(c));
            let a = match self.accounts.get(&c) {
                Some(a) => *a,
                None => Account::new(),
            };
            r.push((c, a));
            i = i + 1;
        }
        assert(r@.map_values(|e: (ClientId, Account)| e.0) =~= self.clients@);
        assert(self.clients@.to_set() =~= self@.accounts.dom());
        r
    }
}

impl Default for PaymentProcessor {
    fn default() -> (r: PaymentProcessor)
        ensures
            r.wf(),
            r@ == LedgerView::empty(),
    {
        PaymentProcessor::new()
    }
}

} // verus!
