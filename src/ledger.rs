use vstd::prelude::*;

use crate::amount::in_amount_range;
use crate::transaction::{ClientId, TransactionId, TransactionType, TransactionView};

verus! {

/// The balances of one client, as scaled integers.
pub struct AccountView {
    pub available: int,
    pub held: int,
    pub locked: bool,
}

impl AccountView {
    /// A newly opened account: nothing available, nothing held, unlocked.
    pub open spec fn fresh() -> AccountView {
        AccountView { available: 0, held: 0, locked: false }
    }

    /// Total funds: available plus held.
    pub open spec fn total(self) -> int {
        self.available + self.held
    }
}

/// The whole state of the engine: the accounts by client, and the signed
/// amount of every deposit (positive) and applied withdrawal (negative) by
/// transaction id.
pub struct LedgerView {
    pub accounts: Map<ClientId, AccountView>,
    pub log: Map<TransactionId, int>,
}

impl LedgerView {
    /// The state before any transaction.
    pub open spec fn empty() -> LedgerView {
        LedgerView { accounts: Map::empty(), log: Map::empty() }
    }

    /// The account of `c`, or a fresh one when `c` has none yet.
    pub open spec fn account(self, c: ClientId) -> AccountView {
        if self.accounts.contains_key(c) {
            self.accounts[c]
        } else {
            AccountView::fresh()
        }
    }

    /// This state with the account of `c` replaced by `a`.
    pub open spec fn with_account(self, c: ClientId, a: AccountView) -> LedgerView {
        LedgerView { accounts: self.accounts.insert(c, a), log: self.log }
    }
}

/// Whether a withdrawal of `t` would be applied in state `l`.
pub open spec fn withdrawal_applies(l: LedgerView, t: TransactionView) -> bool {
    l.account(t.client_id).available >= t.amount
}

/// The effect of one transaction. The account of the record's client is
/// opened if it has none, whatever the kind of record. A withdrawal beyond
/// the available funds, and a dispute, resolve or chargeback whose id is not
/// in the log, change nothing else.
pub open spec fn step(l: LedgerView, t: TransactionView) -> LedgerView {
    let c = t.client_id;
    let id = t.transaction_id;
    let a = l.account(c);
    match t.ty {
        TransactionType::Deposit => LedgerView {
            accounts: l.accounts.insert(
                c,
                AccountView { available: a.available + t.amount, held: a.held, locked: a.locked },
            ),
            log: l.log.insert(id, t.amount),
        },
        TransactionType::Withdrawal => if withdrawal_applies(l, t) {
            LedgerView {
                accounts: l.accounts.insert(
                    c,
                    AccountView {
                        available: a.available - t.amount,
                        held: a.held,
                        locked: a.locked,
                    },
                ),
                log: l.log.insert(id, -t.amount),
            }
        } else {
            l.with_account(c, a)
        },
        TransactionType::Dispute => if l.log.contains_key(id) {
            let x = l.log[id];
            l.with_account(
                c,
                AccountView { available: a.available - x, held: a.held + x, locked: a.locked },
            )
        } else {
            l.with_account(c, a)
        },
        TransactionType::Resolve => if l.log.contains_key(id) {
            let x = l.log[id];
            l.with_account(
                c,
                AccountView { available: a.available + x, held: a.held - x, locked: a.locked },
            )
        } else {
            l.with_account(c, a)
        },
        TransactionType::Chargeback => if l.log.contains_key(id) {
            let x = l.log[id];
            l.with_account(c, AccountView { available: a.available, held: a.held - x, locked: true })
        } else {
            l.with_account(c, a)
        },
    }
}

/// Whether every value that `step(l, t)` writes fits the range of an amount.
pub open spec fn step_fits(l: LedgerView, t: TransactionView) -> bool {
    let n = step(l, t);
    &&& in_amount_range(n.account(t.client_id).available)
    &&& in_amount_range(n.account(t.client_id).held)
    &&& n.log.contains_key(t.transaction_id) ==> in_amount_range(n.log[t.transaction_id])
}

/// The state after applying `txs` in order, starting from `l`.
pub open spec fn run(l: LedgerView, txs: Seq<TransactionView>) -> LedgerView
    decreases txs.len(),
{
    if txs.len() == 0 {
        l
    } else {
        step(run(l, txs.drop_last()), txs.last())
    }
}

/// Whether `t` is a record of kind `ty` for client `c` that refers to `id`.
/// Such records carry no amount the engine reads, so theirs is left open.
pub open spec fn refers(
    t: TransactionView,
    ty: TransactionType,
    c: ClientId,
    id: TransactionId,
) -> bool {
    t.ty == ty && t.client_id == c && t.transaction_id == id
}

/// What a deposit or withdrawal `t` adds to the available funds of `c` in
/// state `l`: the deposited amount, the negated amount of a withdrawal that
/// applies, and nothing otherwise.
pub open spec fn applied_delta(l: LedgerView, t: TransactionView, c: ClientId) -> int {
    if t.client_id != c {
        0
    } else {
        match t.ty {
            TransactionType::Deposit => t.amount,
            TransactionType::Withdrawal => if withdrawal_applies(l, t) {
                -t.amount
            } else {
                0
            },
            _ => 0,
        }
    }
}

/// The sum of `applied_delta` over `txs` applied in order from `l`.
pub open spec fn applied_net(l: LedgerView, txs: Seq<TransactionView>, c: ClientId) -> int
    decreases txs.len(),
{
    if txs.len() == 0 {
        0
    } else {
        applied_net(l, txs.drop_last(), c) + applied_delta(run(l, txs.drop_last()), txs.last(), c)
    }
}

/// Over any sequence of deposits and withdrawals, each client's available
/// funds end as they started plus the deposited amounts minus the applied
/// withdrawals, exactly, and its held funds do not change.
pub proof fn lemma_available_is_applied_net(l: LedgerView, txs: Seq<TransactionView>, c: ClientId)
    requires
        forall|i: int|
            0 <= i < txs.len() ==> (#[trigger] txs[i]).ty == TransactionType::Deposit
                || txs[i].ty == TransactionType::Withdrawal,
    ensures
        run(l, txs).account(c).available == l.account(c).available + applied_net(l, txs, c),
        run(l, txs).account(c).held == l.account(c).held,
    decreases txs.len(),
{
    if txs.len() > 0 {
        let prefix = txs.drop_last();
        assert forall|i: int|
            0 <= i < prefix.len() implies (#[trigger] prefix[i]).ty == TransactionType::Deposit
                || prefix[i].ty == TransactionType::Withdrawal by {
            assert(prefix[i] == txs[i]);
        }
        lemma_available_is_applied_net(l, prefix, c);
        assert(txs[txs.len() - 1] == txs.last());
    }
}

/// A withdrawal of more than the available funds leaves available and held
/// funds as they were and logs nothing.
pub proof fn lemma_overdrawn_withdrawal_ignored(l: LedgerView, t: TransactionView)
    requires
        t.ty == TransactionType::Withdrawal,
        t.amount > l.account(t.client_id).available,
    ensures
        step(l, t).account(t.client_id) == l.account(t.client_id),
        step(l, t).log == l.log,
{
}

/// When the log holds `a` under `id` (a deposit of `a`, or a withdrawal of
/// `-a`), a dispute moves `a` from available to held; a resolve after it
/// restores the account as it was before the dispute; a chargeback after it
/// takes `a` from held and locks the account, leaving available alone.
pub proof fn lemma_dispute_lifecycle(
    l: LedgerView,
    dispute: TransactionView,
    resolve: TransactionView,
    chargeback: TransactionView,
    c: ClientId,
    id: TransactionId,
    a: int,
)
    requires
        refers(dispute, TransactionType::Dispute, c, id),
        refers(resolve, TransactionType::Resolve, c, id),
        refers(chargeback, TransactionType::Chargeback, c, id),
        l.log.contains_key(id),
        l.log[id] == a,
    ensures
        step(l, dispute).account(c).available == l.account(c).available - a,
        step(l, dispute).account(c).held == l.account(c).held + a,
        step(l, dispute).account(c).locked == l.account(c).locked,
        step(l, dispute).log == l.log,
        step(step(l, dispute), resolve) == l.with_account(c, l.account(c)),
        step(step(l, dispute), chargeback).account(c).available == step(l, dispute).account(
            c,
        ).available,
        step(step(l, dispute), chargeback).account(c).held == step(l, dispute).account(c).held - a,
        step(step(l, dispute), chargeback).account(c).locked,
        step(step(l, dispute), chargeback).log == l.log,
{
    let resolved = step(step(l, dispute), resolve);
    assert(resolved.accounts =~= l.with_account(c, l.account(c)).accounts);
}

/// Disputing a withdrawal of `w` (logged as `-w`) adds `w` to the available
/// funds and takes `w` from held; a resolve after it restores the account.
pub proof fn lemma_dispute_withdrawal(
    l: LedgerView,
    dispute: TransactionView,
    resolve: TransactionView,
    c: ClientId,
    id: TransactionId,
    w: int,
)
    requires
        refers(dispute, TransactionType::Dispute, c, id),
        refers(resolve, TransactionType::Resolve, c, id),
        l.log.contains_key(id),
        l.log[id] == -w,
    ensures
        step(l, dispute).account(c).available == l.account(c).available + w,
        step(l, dispute).account(c).held == l.account(c).held - w,
        step(step(l, dispute), resolve) == l.with_account(c, l.account(c)),
{
    let chargeback = TransactionView {
        ty: TransactionType::Chargeback,
        client_id: c,
        transaction_id: id,
        amount: 0,
    };
    lemma_dispute_lifecycle(l, dispute, resolve, chargeback, c, id, -w);
}

/// A dispute, resolve or chargeback whose id is not in the log changes
/// nothing but opening the client's account if it had none.
pub proof fn lemma_unknown_reference_ignored(l: LedgerView, t: TransactionView)
    requires
        t.ty == TransactionType::Dispute || t.ty == TransactionType::Resolve || t.ty
            == TransactionType::Chargeback,
        !l.log.contains_key(t.transaction_id),
    ensures
        step(l, t) == l.with_account(t.client_id, l.account(t.client_id)),
        step(l, t).account(t.client_id) == l.account(t.client_id),
{
}

/// Disputes and resolves only move funds between available and held: the
/// client's total funds, and every other account, stay as they were.
pub proof fn lemma_dispute_resolve_keep_total(l: LedgerView, t: TransactionView, other: ClientId)
    requires
        t.ty == TransactionType::Dispute || t.ty == TransactionType::Resolve,
        other != t.client_id,
    ensures
        step(l, t).account(t.client_id).total() == l.account(t.client_id).total(),
        step(l, t).account(other) == l.account(other),
        step(l, t).log == l.log,
{
}

} // verus!
