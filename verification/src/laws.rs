//! Proofs of the governance invariants, stated over the transition functions
//! of `state`. The executable methods of `dao` are proved equal to those
//! transitions, so everything shown here holds of the running module.

use vstd::prelude::*;

use crate::state::{
    apply_action_spec, cast_vote_spec, clear_vote_spec, finalize_vote_spec, new_spec,
    transfer_spec, AccountId, DaoView, TrustKey, VoteType, TRUST_DEPOSIT_THRESHOLD,
};

verus! {

/// One requested transfer: sender, recipient and amount, as the hosting
/// environment would hand them to `transfer` one call at a time.
pub ghost struct TransferRequest {
    pub sender: AccountId,
    pub recipient: AccountId,
    pub amount: u32,
}

/// The state after a whole sequence of transfer calls. An aborted call
/// (arithmetic overflow) leaves the state exactly as it was, and the
/// sequence continues from there.
pub open spec fn run_transfers(s: DaoView, requests: Seq<TransferRequest>) -> DaoView
    decreases requests.len(),
{
    if requests.len() == 0 {
        s
    } else {
        let next = match transfer_spec(
            s,
            requests[0].sender,
            requests[0].recipient,
            requests[0].amount,
        ) {
            Some(t) => t,
            None => s,
        };
        run_transfers(next, requests.drop_first())
    }
}

/// A freshly constructed module has every account's balance equal to its
/// voting-power snapshot, and no active proposal.
pub proof fn lemma_new_synced(deployer: AccountId, supply: u32, initial_keepers: Seq<AccountId>)
    ensures
        new_spec(deployer, supply, initial_keepers).synced(),
        !new_spec(deployer, supply, initial_keepers).vote_active(),
{
    let s = new_spec(deployer, supply, initial_keepers);
    assert forall|a: AccountId| #[trigger] s.balance_of(a) == s.voting_power_of(a) by {}
}

/// While no proposal is active, one transfer keeps every account's balance
/// equal to its voting-power snapshot, and opens no proposal.
pub proof fn lemma_transfer_preserves_sync(
    s: DaoView,
    sender: AccountId,
    recipient: AccountId,
    amount: u32,
)
    requires
        !s.vote_active(),
        s.synced(),
    ensures
        match transfer_spec(s, sender, recipient, amount) {
            Some(t) => t.synced() && !t.vote_active(),
            None => true,
        },
{
    let result = transfer_spec(s, sender, recipient, amount);
    if result is Some {
        let t = result.unwrap();
        assert forall|a: AccountId| #[trigger] t.balance_of(a) == t.voting_power_of(a) by {
            if a != sender && a != recipient {
                assert(s.balance_of(a) == s.voting_power_of(a));
            }
        }
    }
}

/// While no proposal is active, any sequence of transfer calls keeps every
/// account's balance equal to its voting-power snapshot.
pub proof fn lemma_transfers_preserve_sync(s: DaoView, requests: Seq<TransferRequest>)
    requires
        !s.vote_active(),
        s.synced(),
    ensures
        run_transfers(s, requests).synced(),
        !run_transfers(s, requests).vote_active(),
    decreases requests.len(),
{
    if requests.len() > 0 {
        let first = requests[0];
        lemma_transfer_preserves_sync(s, first.sender, first.recipient, first.amount);
        let next = match transfer_spec(s, first.sender, first.recipient, first.amount) {
            Some(t) => t,
            None => s,
        };
        lemma_transfers_preserve_sync(next, requests.drop_first());
    }
}

/// While a proposal is active, one transfer changes no account's voting-power
/// snapshot and leaves the whole proposal state as it was.
pub proof fn lemma_transfer_freezes_power(
    s: DaoView,
    sender: AccountId,
    recipient: AccountId,
    amount: u32,
)
    requires
        s.vote_active(),
    ensures
        match transfer_spec(s, sender, recipient, amount) {
            Some(t) => {
                &&& forall|a: AccountId| #[trigger] t.voting_power_of(a) == s.voting_power_of(a)
                &&& t.vote == s.vote
                &&& t.vote_end_block == s.vote_end_block
                &&& t.casted_votes == s.casted_votes
                &&& t.voters == s.voters
            },
            None => true,
        },
{
    let result = transfer_spec(s, sender, recipient, amount);
    if result is Some {
        let t = result.unwrap();
        assert forall|a: AccountId| #[trigger] t.voting_power_of(a) == s.voting_power_of(a) by {}
    }
}

/// While a proposal is active, any sequence of transfer calls changes no
/// account's voting-power snapshot and leaves the proposal state as it was.
pub proof fn lemma_transfers_freeze_power(s: DaoView, requests: Seq<TransferRequest>)
    requires
        s.vote_active(),
    ensures
        forall|a: AccountId| #[trigger] run_transfers(s, requests).voting_power_of(a)
            == s.voting_power_of(a),
        run_transfers(s, requests).vote == s.vote,
        run_transfers(s, requests).vote_end_block == s.vote_end_block,
        run_transfers(s, requests).casted_votes == s.casted_votes,
        run_transfers(s, requests).voters == s.voters,
    decreases requests.len(),
{
    if requests.len() > 0 {
        let first = requests[0];
        lemma_transfer_freezes_power(s, first.sender, first.recipient, first.amount);
        let next = match transfer_spec(s, first.sender, first.recipient, first.amount) {
            Some(t) => t,
            None => s,
        };
        lemma_transfers_freeze_power(next, requests.drop_first());
    }
}

/// Sum of the transferable balances of the accounts in `dom`, read from the
/// ledger `m`.
pub open spec fn balance_fold(dom: Set<AccountId>, m: Map<AccountId, (u32, u32)>) -> int
    recommends
        dom.finite(),
    decreases dom.len(),
    when dom.finite()
{
    if dom.len() == 0 {
        0
    } else {
        let k = dom.choose();
        balance_fold(dom.remove(k), m) + m[k].0
    }
}

/// Sum of all transferable balances in the ledger.
pub open spec fn balance_sum(m: Map<AccountId, (u32, u32)>) -> int {
    balance_fold(m.dom(), m)
}

proof fn lemma_balance_fold_remove(dom: Set<AccountId>, m: Map<AccountId, (u32, u32)>, k: AccountId)
    requires
        dom.finite(),
        dom.contains(k),
    ensures
        balance_fold(dom, m) == balance_fold(dom.remove(k), m) + m[k].0,
    decreases dom.len(),
{
    let c = dom.choose();
    if c != k {
        lemma_balance_fold_remove(dom.remove(c), m, k);
        lemma_balance_fold_remove(dom.remove(k), m, c);
        assert(dom.remove(c).remove(k) =~= dom.remove(k).remove(c));
    }
}

proof fn lemma_balance_fold_nonneg(dom: Set<AccountId>, m: Map<AccountId, (u32, u32)>)
    requires
        dom.finite(),
    ensures
        balance_fold(dom, m) >= 0,
    decreases dom.len(),
{
    if dom.len() != 0 {
        lemma_balance_fold_nonneg(dom.remove(dom.choose()), m);
    }
}

proof fn lemma_balance_fold_agree(
    dom: Set<AccountId>,
    m1: Map<AccountId, (u32, u32)>,
    m2: Map<AccountId, (u32, u32)>,
)
    requires
        dom.finite(),
        forall|k: AccountId| dom.contains(k) ==> m1[k].0 == m2[k].0,
    ensures
        balance_fold(dom, m1) == balance_fold(dom, m2),
    decreases dom.len(),
{
    if dom.len() != 0 {
        lemma_balance_fold_agree(dom.remove(dom.choose()), m1, m2);
    }
}

proof fn lemma_balance_sum_insert(m: Map<AccountId, (u32, u32)>, k: AccountId, v: (u32, u32))
    requires
        m.dom().finite(),
    ensures
        balance_sum(m.insert(k, v)) == balance_sum(m) + v.0 - (if m.dom().contains(k) {
            m[k].0 as int
        } else {
            0
        }),
{
    let updated = m.insert(k, v);
    assert(updated.dom() =~= m.dom().insert(k));
    lemma_balance_fold_remove(m.dom().insert(k), updated, k);
    if m.dom().contains(k) {
        assert(m.dom().insert(k).remove(k) =~= m.dom().remove(k));
        lemma_balance_fold_agree(m.dom().remove(k), updated, m);
        lemma_balance_fold_remove(m.dom(), m, k);
    } else {
        assert(m.dom().insert(k).remove(k) =~= m.dom());
        lemma_balance_fold_agree(m.dom(), updated, m);
    }
}

proof fn lemma_balance_pair_le_sum(m: Map<AccountId, (u32, u32)>, k1: AccountId, k2: AccountId)
    requires
        m.dom().finite(),
        m.dom().contains(k1),
        m.dom().contains(k2),
        k1 != k2,
    ensures
        m[k1].0 + m[k2].0 <= balance_sum(m),
{
    lemma_balance_fold_remove(m.dom(), m, k1);
    lemma_balance_fold_remove(m.dom().remove(k1), m, k2);
    lemma_balance_fold_nonneg(m.dom().remove(k1).remove(k2), m);
}

/// Construction mints exactly the supply: the fresh ledger sums to it.
pub proof fn lemma_new_balance_sum(deployer: AccountId, supply: u32, initial_keepers: Seq<AccountId>)
    ensures
        balance_sum(new_spec(deployer, supply, initial_keepers).balances) == supply,
        new_spec(deployer, supply, initial_keepers).balances.dom().finite(),
{
    let empty = Map::<AccountId, (u32, u32)>::empty();
    assert(empty.dom() =~= Set::empty());
    lemma_balance_sum_insert(empty, deployer, (supply, supply));
}

/// Conservation of supply: a transfer that completes leaves the sum of all
/// balances exactly as it was, whichever branch (frozen or synced snapshots)
/// it took.
pub proof fn lemma_transfer_preserves_balance_sum(
    s: DaoView,
    sender: AccountId,
    recipient: AccountId,
    amount: u32,
)
    requires
        s.balances.dom().finite(),
    ensures
        match transfer_spec(s, sender, recipient, amount) {
            Some(t) => balance_sum(t.balances) == balance_sum(s.balances)
                && t.balances.dom().finite(),
            None => true,
        },
{
    let result = transfer_spec(s, sender, recipient, amount);
    if s.balance_of(sender) >= amount && result is Some {
        let m = s.balances;
        let debited = (s.balance_of(sender) - amount) as u32;
        let sender_power = if s.vote_active() {
            s.voting_power_of(sender)
        } else {
            debited
        };
        let m1 = m.insert(sender, (debited, sender_power));
        lemma_balance_sum_insert(m, sender, (debited, sender_power));
        assert(m1.dom() =~= m.dom().insert(sender));
        let s1 = DaoView { balances: m1, ..s };
        let credited = (s1.balance_of(recipient) + amount) as u32;
        let recipient_power = if s.vote_active() {
            s1.voting_power_of(recipient)
        } else {
            credited
        };
        lemma_balance_sum_insert(m1, recipient, (credited, recipient_power));
        assert(result.unwrap().balances == m1.insert(recipient, (credited, recipient_power)));
        assert(result.unwrap().balances.dom() =~= m1.dom().insert(recipient));
    }
}

/// While the ledger sums to at most `u32::MAX` — which conservation keeps
/// true of every state built from a fresh module — a transfer can never
/// abort: the balance overflow it guards against is unreachable.
pub proof fn lemma_transfer_never_aborts(
    s: DaoView,
    sender: AccountId,
    recipient: AccountId,
    amount: u32,
)
    requires
        s.balances.dom().finite(),
        balance_sum(s.balances) <= u32::MAX,
    ensures
        transfer_spec(s, sender, recipient, amount) is Some,
{
    if s.balance_of(sender) >= amount {
        let m = s.balances;
        if recipient != sender && m.dom().contains(recipient) && m.dom().contains(sender) {
            lemma_balance_pair_le_sum(m, sender, recipient);
        }
    }
}

/// A funded account at the balance ceiling cannot receive: a positive
/// transfer onto a recipient holding `u32::MAX` aborts. Together with the
/// rollback clause of `transfer`, both parties' balances are then exactly
/// what they were before the call.
pub proof fn lemma_transfer_overflow_aborts(
    s: DaoView,
    sender: AccountId,
    recipient: AccountId,
    amount: u32,
)
    requires
        sender != recipient,
        amount > 0,
        s.balance_of(sender) >= amount,
        s.balance_of(recipient) == u32::MAX,
    ensures
        transfer_spec(s, sender, recipient, amount) is None,
{
}

/// No double voting: if a cast from `sender` changed the tally, a second cast
/// from `sender` in the same voting window is a complete no-op, whatever
/// block or ballot it carries.
pub proof fn lemma_no_double_tally(
    s: DaoView,
    sender: AccountId,
    block1: u32,
    favor1: bool,
    block2: u32,
    favor2: bool,
)
    ensures
        match cast_vote_spec(s, sender, block1, favor1) {
            Some(s1) => s1.casted_votes != s.casted_votes ==> cast_vote_spec(
                s1,
                sender,
                block2,
                favor2,
            ) == Some(s1),
            None => true,
        },
{
}

/// Quorum law: once the deadline has strictly passed, finalization applies
/// the pending action exactly when the tally strictly exceeds half the total
/// supply (integer division); with quorum missed, the ledger, keeper set,
/// trust list and escrow are untouched. Either way the proposal state is
/// cleared.
pub proof fn lemma_quorum_gates_action(s: DaoView, current_block: u32)
    requires
        s.vote_active(),
        current_block > s.vote_end_block,
    ensures
        s.quorum_reached() ==> finalize_vote_spec(s, current_block) == clear_vote_spec(
            apply_action_spec(s, s.vote),
        ),
        !s.quorum_reached() ==> finalize_vote_spec(s, current_block) == clear_vote_spec(s),
        !s.quorum_reached() ==> {
            let t = finalize_vote_spec(s, current_block);
            &&& t.balances == s.balances
            &&& t.keepers == s.keepers
            &&& t.trust_list == s.trust_list
            &&& t.withdrawable == s.withdrawable
        },
        !finalize_vote_spec(s, current_block).vote_active(),
        finalize_vote_spec(s, current_block).casted_votes == 0,
{
}

/// Trust-list gate: a passed `AddToTrustList` action inserts the entry
/// exactly when the target's escrow deposit strictly exceeds the threshold;
/// at or below it, the whole state is unchanged.
pub proof fn lemma_trust_threshold(s: DaoView, account: AccountId, keys: TrustKey)
    ensures
        s.deposit_of(account) > TRUST_DEPOSIT_THRESHOLD ==> apply_action_spec(
            s,
            VoteType::AddToTrustList(account, keys),
        ) == (DaoView { trust_list: s.trust_list.insert(account, keys), ..s }),
        s.deposit_of(account) <= TRUST_DEPOSIT_THRESHOLD ==> apply_action_spec(
            s,
            VoteType::AddToTrustList(account, keys),
        ) == s,
{
}

} // verus!
