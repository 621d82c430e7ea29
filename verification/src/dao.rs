//! Executable governance module. Every method is proved to follow the
//! corresponding transition function of `state`, over the view of the
//! concrete state.
//!
//! The hosting environment supplies the caller identity, the current block
//! number and any attached value as plain arguments, and performs the actual
//! value payout signalled by `withdraw`.

use vstd::prelude::*;

use crate::state::{
    apply_action_spec, cast_vote_spec, deposit_spec, finalize_vote_spec, initialize_vote_spec,
    new_spec, replace_first_keeper, transfer_spec, withdraw_spec, AccountId, DaoError, DaoView,
    TrustKey, VoteType, TRUST_DEPOSIT_THRESHOLD, VOTE_COOLDOWN, VOTING_PERIOD,
};
use std::collections::HashMap;
use std::collections::HashSet;

verus! {

broadcast use vstd::std_specs::hash::group_hash_axioms;

/// The governance module: snapshot ledger, single-proposal voting state
/// machine, keeper set, trust list and escrow.
pub struct See3Dao {
    total_supply: u32,
    vote: VoteType,
    vote_end_block: u32,
    earliest_next_vote_block: u32,
    voters: HashSet<AccountId>,
    casted_votes: u32,
    keepers: [AccountId; 3],
    trust_list: HashMap<AccountId, TrustKey>,
    balances: HashMap<AccountId, (u32, u32)>,
    withdrawable: HashMap<AccountId, u32>,
}

impl View for See3Dao {
    type V = DaoView;

    closed spec fn view(&self) -> DaoView {
        DaoView {
            total_supply: self.total_supply,
            vote: self.vote,
            vote_end_block: self.vote_end_block,
            earliest_next_vote_block: self.earliest_next_vote_block,
            voters: self.voters@,
            casted_votes: self.casted_votes,
            keepers: self.keepers@,
            trust_list: self.trust_list@,
            balances: self.balances@,
            withdrawable: self.withdrawable@,
        }
    }
}

impl See3Dao {
    /// Constructs the module, minting the whole supply to the deployer.
    pub fn new(deployer: AccountId, supply: u32, initial_keepers: [AccountId; 3]) -> (dao: Self)
        ensures
            dao@ == new_spec(deployer, supply, initial_keepers@),
            dao@.wf(),
    {
        let mut balances: HashMap<AccountId, (u32, u32)> = HashMap::new();
        balances.insert(deployer, (supply, supply));
        let dao = See3Dao {
            total_supply: supply,
            vote: VoteType::NoAction,
            vote_end_block: 0,
            earliest_next_vote_block: 0,
            voters: HashSet::new(),
            casted_votes: 0,
            keepers: initial_keepers,
            trust_list: HashMap::new(),
            balances,
            withdrawable: HashMap::new(),
        };
        assert(dao@ =~= new_spec(deployer, supply, initial_keepers@));
        dao
    }

    /// The fixed total supply.
    pub fn total_supply(&self) -> (supply: u32)
        ensures
            supply == self@.total_supply,
    {
        self.total_supply
    }

    /// Transferable balance of `account`, 0 for unknown accounts.
    pub fn balance_of(&self, account: AccountId) -> (balance: u32)
        ensures
            balance == self@.balance_of(account),
    {
        match self.balances.get(&account) {
            Some(entry) => entry.0,
            None => 0,
        }
    }

    /// Voting-power snapshot of `account`, 0 for unknown accounts.
    pub fn voting_power_of(&self, account: AccountId) -> (power: u32)
        ensures
            power == self@.voting_power_of(account),
    {
        match self.balances.get(&account) {
            Some(entry) => entry.1,
            None => 0,
        }
    }

    /// Withdrawable escrow amount of `account`, 0 for unknown accounts.
    pub fn deposit_of(&self, account: AccountId) -> (amount: u32)
        ensures
            amount == self@.deposit_of(account),
    {
        match self.withdrawable.get(&account) {
            Some(amount) => *amount,
            None => 0,
        }
    }

    /// Whether a proposal is currently active.
    pub fn is_vote_active(&self) -> (active: bool)
        ensures
            active == self@.vote_active(),
    {
        !matches!(self.vote, VoteType::NoAction)
    }

    /// Moves `amount` from `sender` to `recipient`. A sender balance below
    /// `amount` is a silent no-op. While a proposal is active only balances
    /// move and both parties' voting-power snapshots stay frozen; otherwise
    /// balance and snapshot are kept equal for both parties. An overflow of
    /// the recipient's balance aborts the call with every change rolled back.
    pub fn transfer(&mut self, sender: AccountId, recipient: AccountId, amount: u32) -> (result:
        Result<(), DaoError>)
        ensures
            result is Ok <==> transfer_spec(old(self)@, sender, recipient, amount) is Some,
            result is Ok ==> Some(final(self)@) == transfer_spec(old(self)@, sender, recipient, amount),
            result is Err ==> final(self)@ == old(self)@,
            old(self)@.vote_active() ==> forall|a: AccountId|
                #[trigger] final(self)@.voting_power_of(a) == old(self)@.voting_power_of(a),
            old(self)@.balance_of(sender) < amount ==> final(self)@ == old(self)@,
            final(self)@.vote == old(self)@.vote,
            final(self)@.total_supply == old(self)@.total_supply,
            final(self)@.withdrawable == old(self)@.withdrawable,
            final(self)@.trust_list == old(self)@.trust_list,
            final(self)@.keepers == old(self)@.keepers,
    {
        let ghost s = self@;
        let sender_balance = self.balance_of(sender);
        if sender_balance < amount {
            return Ok(());
        }
        let debited = sender_balance - amount;
        // The recipient balance as it stands once the sender is debited.
        let recipient_balance = if recipient == sender {
            debited
        } else {
            self.balance_of(recipient)
        };
        if amount > u32::MAX - recipient_balance {
            return Err(DaoError::Overflow);
        }
        let credited = recipient_balance + amount;
        if self.is_vote_active() {
            let sender_power = self.voting_power_of(sender);
            self.balances.insert(sender, (debited, sender_power));
            let recipient_power = self.voting_power_of(recipient);
            self.balances.insert(recipient, (credited, recipient_power));
            proof {
                assert(Some(self@) =~~= transfer_spec(s, sender, recipient, amount));
            }
        } else {
            self.balances.insert(sender, (debited, debited));
            self.balances.insert(recipient, (credited, credited));
            proof {
                assert(Some(self@) =~~= transfer_spec(s, sender, recipient, amount));
            }
        }
        Ok(())
    }

    /// Opens a vote on `vote`. With a proposal already active, or with the
    /// cooldown block not yet strictly passed, a silent no-op: an expired but
    /// unfinalized proposal keeps blocking new ones until `finalize_vote`
    /// runs. On success the deadline and the next cooldown block are set and
    /// tally and voter set are reset; a deadline overflow aborts the call
    /// with nothing changed.
    pub fn initialize_vote(&mut self, current_block: u32, vote: VoteType) -> (result: Result<
        (),
        DaoError,
    >)
        ensures
            result is Ok <==> initialize_vote_spec(old(self)@, current_block, vote) is Some,
            result is Ok ==> Some(final(self)@) == initialize_vote_spec(old(self)@, current_block, vote),
            result is Err ==> final(self)@ == old(self)@,
            old(self)@.vote_active() ==> final(self)@ == old(self)@ && result is Ok,
            current_block <= old(self)@.earliest_next_vote_block ==> final(self)@ == old(self)@
                && result is Ok,
    {
        let ghost s = self@;
        if self.is_vote_active() || current_block <= self.earliest_next_vote_block {
            return Ok(());
        }
        if current_block > u32::MAX - VOTING_PERIOD - VOTE_COOLDOWN {
            return Err(DaoError::Overflow);
        }
        self.vote = vote;
        self.casted_votes = 0;
        self.voters = HashSet::new();
        self.vote_end_block = current_block + VOTING_PERIOD;
        self.earliest_next_vote_block = self.vote_end_block + VOTE_COOLDOWN;
        proof {
            assert(Some(self@) =~~= initialize_vote_spec(s, current_block, vote));
        }
        Ok(())
    }

    /// Records `sender`'s vote. A repeated voter, or a cast at or past the
    /// deadline, is a silent no-op. A successful cast always records the
    /// voter; only an in-favor cast adds the caller's frozen voting-power
    /// snapshot to the tally. A tally overflow aborts the call with nothing
    /// changed.
    pub fn cast_vote(&mut self, sender: AccountId, current_block: u32, in_favor: bool) -> (result:
        Result<(), DaoError>)
        ensures
            result is Ok <==> cast_vote_spec(old(self)@, sender, current_block, in_favor) is Some,
            result is Ok ==> Some(final(self)@) == cast_vote_spec(
                old(self)@,
                sender,
                current_block,
                in_favor,
            ),
            result is Err ==> final(self)@ == old(self)@,
            old(self)@.voters.contains(sender) ==> final(self)@ == old(self)@ && result is Ok,
            current_block >= old(self)@.vote_end_block ==> final(self)@ == old(self)@ && result is Ok,
    {
        let ghost s = self@;
        if self.voters.contains(&sender) || current_block >= self.vote_end_block {
            return Ok(());
        }
        if in_favor {
            let power = self.voting_power_of(sender);
            if power > u32::MAX - self.casted_votes {
                return Err(DaoError::Overflow);
            }
            self.casted_votes = self.casted_votes + power;
        }
        self.voters.insert(sender);
        proof {
            assert(Some(self@) =~~= cast_vote_spec(s, sender, current_block, in_favor));
        }
        Ok(())
    }

    /// Closes the active vote once `current_block` is strictly past the
    /// deadline; before that, or with no active proposal, a silent no-op. The
    /// action is applied exactly when the tally strictly exceeds half the
    /// total supply; the proposal slot, tally and voter set are cleared
    /// either way, while the cooldown block persists.
    pub fn finalize_vote(&mut self, current_block: u32)
        ensures
            final(self)@ == finalize_vote_spec(old(self)@, current_block),
            current_block <= old(self)@.vote_end_block ==> final(self)@ == old(self)@,
            !old(self)@.vote_active() ==> final(self)@ == old(self)@,
            current_block > old(self)@.vote_end_block && old(self)@.vote_active() ==> {
                &&& !final(self)@.vote_active()
                &&& final(self)@.casted_votes == 0
                &&& final(self)@.voters == Set::<AccountId>::empty()
            },
    {
        let ghost s = self@;
        if !(current_block > self.vote_end_block) || !self.is_vote_active() {
            return;
        }
        if self.casted_votes > self.total_supply / 2 {
            let action = self.vote;
            match action {
                VoteType::NoAction => {},
                VoteType::ChangeKeeper(old_keeper, new_keeper) => {
                    if self.keepers[0] == old_keeper {
                        self.keepers = [new_keeper, self.keepers[1], self.keepers[2]];
                    } else if self.keepers[1] == old_keeper {
                        self.keepers = [self.keepers[0], new_keeper, self.keepers[2]];
                    } else if self.keepers[2] == old_keeper {
                        self.keepers = [self.keepers[0], self.keepers[1], new_keeper];
                    }
                    proof {
                        assert(self@.keepers =~= replace_first_keeper(
                            s.keepers,
                            old_keeper,
                            new_keeper,
                        ));
                    }
                },
                VoteType::AddToTrustList(account, keys) => {
                    if self.deposit_of(account) > TRUST_DEPOSIT_THRESHOLD {
                        self.trust_list.insert(account, keys);
                    }
                },
                VoteType::RemoveFromTrustList(account) => {
                    self.trust_list.remove(&account);
                },
                VoteType::SlashParticipant(account) => {
                    self.withdrawable.remove(&account);
                },
            }
            proof {
                assert(self@ =~~= apply_action_spec(s, s.vote));
            }
        }
        self.casted_votes = 0;
        self.voters = HashSet::new();
        self.vote = VoteType::NoAction;
        proof {
            assert(self@ =~~= finalize_vote_spec(s, current_block));
        }
    }

    /// Records an escrow deposit of `value` attached by `sender`. A fresh
    /// deposit replaces, and does not add to, any prior unwithdrawn amount.
    pub fn deposit(&mut self, sender: AccountId, value: u32)
        ensures
            final(self)@ == deposit_spec(old(self)@, sender, value),
            final(self)@.deposit_of(sender) == value,
    {
        let ghost s = self@;
        self.withdrawable.insert(sender, value);
        proof {
            assert(self@ =~~= deposit_spec(s, sender, value));
        }
    }

    /// Clears `sender`'s escrow entry and returns the amount the hosting
    /// environment owes the caller. The host performs the value payout; to
    /// keep the original all-or-nothing behaviour it reads `deposit_of`,
    /// attempts the payout, and calls this only once the payout succeeded.
    pub fn withdraw(&mut self, sender: AccountId) -> (amount: u32)
        ensures
            final(self)@ == withdraw_spec(old(self)@, sender),
            amount == old(self)@.deposit_of(sender),
            final(self)@.deposit_of(sender) == 0,
    {
        let ghost s = self@;
        let amount = self.deposit_of(sender);
        self.withdrawable.remove(&sender);
        proof {
            assert(self@ =~~= withdraw_spec(s, sender));
        }
        amount
    }

    /// Block at which the active vote stops accepting casts.
    pub fn vote_end_block(&self) -> (block: u32)
        ensures
            block == self@.vote_end_block,
    {
        self.vote_end_block
    }

    /// Earliest block at which a new vote may be initialized.
    pub fn earliest_next_vote_block(&self) -> (block: u32)
        ensures
            block == self@.earliest_next_vote_block,
    {
        self.earliest_next_vote_block
    }

    /// In-favor voting power recorded for the active vote.
    pub fn casted_votes(&self) -> (tally: u32)
        ensures
            tally == self@.casted_votes,
    {
        self.casted_votes
    }

    /// The three keeper accounts, in slot order.
    pub fn keepers(&self) -> (keepers: [AccountId; 3])
        ensures
            keepers@ == self@.keepers,
    {
        self.keepers
    }

    /// Whether `account` has already cast a vote in the current window.
    pub fn has_voted(&self, account: AccountId) -> (voted: bool)
        ensures
            voted == self@.voters.contains(account),
    {
        self.voters.contains(&account)
    }

    /// The ledger of a running module covers finitely many accounts, as the
    /// conservation laws over its view require.
    pub proof fn lemma_ledger_finite(&self)
        ensures
            self@.balances.dom().finite(),
    {
    }

    /// The keeper set of a running module always has exactly three slots.
    pub proof fn lemma_keeper_slots(&self)
        ensures
            self@.wf(),
    {
    }

    /// The trust-list entry of `account`, if any.
    pub fn trust_key_of(&self, account: AccountId) -> (keys: Option<TrustKey>)
        ensures
            match keys {
                Some(k) => self@.trust_list.contains_key(account) && self@.trust_list[account]
                    == k,
                None => !self@.trust_list.contains_key(account),
            },
    {
        match self.trust_list.get(&account) {
            Some(k) => Some(*k),
            None => None,
        }
    }
}

} // verus!

