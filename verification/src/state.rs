//! Mathematical model of the governance module: the abstract state, and one
//! transition function per operation. The executable code in `dao` is proved
//! to follow these transitions exactly; the laws in `laws` are proved of the
//! transitions themselves.

use vstd::prelude::*;

verus! {

/// An account identifier, the key of every per-account mapping.
pub type AccountId = u64;

/// The pair of 32-byte keys stored for an account on the trust list.
pub type TrustKey = [[u8; 32]; 2];

/// Blocks a vote stays open after it is initialized.
pub const VOTING_PERIOD: u32 = 1000;

/// Blocks after the end of a vote before the next one may be initialized.
pub const VOTE_COOLDOWN: u32 = 1000;

/// An account must hold an escrow deposit strictly above this to be added to
/// the trust list.
pub const TRUST_DEPOSIT_THRESHOLD: u32 = 100;

/// A governance action put to a vote. `NoAction` doubles as the idle state of
/// the proposal slot: at most one action is pending at any time.
#[derive(Clone, Copy, Debug)]
pub enum VoteType {
    NoAction,
    ChangeKeeper(AccountId, AccountId),
    AddToTrustList(AccountId, TrustKey),
    RemoveFromTrustList(AccountId),
    SlashParticipant(AccountId),
}

/// The one unrecoverable failure class: checked arithmetic overflowed. The
/// call that reports it has changed nothing.
#[derive(Clone, Copy, Debug, PartialEq, Eq, Structural)]
pub enum DaoError {
    Overflow,
}

/// The abstract state of the whole module: ledger, proposal slot, keeper set,
/// trust list and escrow.
pub ghost struct DaoView {
    pub total_supply: u32,
    pub vote: VoteType,
    pub vote_end_block: u32,
    pub earliest_next_vote_block: u32,
    pub voters: Set<AccountId>,
    pub casted_votes: u32,
    pub keepers: Seq<AccountId>,
    pub trust_list: Map<AccountId, TrustKey>,
    pub balances: Map<AccountId, (u32, u32)>,
    pub withdrawable: Map<AccountId, u32>,
}

impl DaoView {
    /// The keeper set always has exactly three slots.
    pub open spec fn wf(self) -> bool {
        self.keepers.len() == 3
    }

    /// Transferable balance; unknown accounts hold 0.
    pub open spec fn balance_of(self, account: AccountId) -> u32 {
        if self.balances.contains_key(account) {
            self.balances[account].0
        } else {
            0
        }
    }

    /// Voting-power snapshot; unknown accounts hold 0.
    pub open spec fn voting_power_of(self, account: AccountId) -> u32 {
        if self.balances.contains_key(account) {
            self.balances[account].1
        } else {
            0
        }
    }

    /// Withdrawable escrow amount; unknown accounts hold 0.
    pub open spec fn deposit_of(self, account: AccountId) -> u32 {
        if self.withdrawable.contains_key(account) {
            self.withdrawable[account]
        } else {
            0
        }
    }

    /// A proposal is active exactly while the action slot is not `NoAction`.
    pub open spec fn vote_active(self) -> bool {
        !(self.vote is NoAction)
    }

    /// Every account's balance agrees with its voting-power snapshot.
    pub open spec fn synced(self) -> bool {
        forall|a: AccountId| #[trigger] self.balance_of(a) == self.voting_power_of(a)
    }

    /// Quorum: in-favor voting power strictly exceeds half the total supply.
    pub open spec fn quorum_reached(self) -> bool {
        self.casted_votes > self.total_supply / 2
    }
}

/// State after construction: the whole supply is minted to the deployer, with
/// balance and snapshot equal; everything else is empty or idle.
pub open spec fn new_spec(deployer: AccountId, supply: u32, initial_keepers: Seq<AccountId>) -> DaoView {
    DaoView {
        total_supply: supply,
        vote: VoteType::NoAction,
        vote_end_block: 0,
        earliest_next_vote_block: 0,
        voters: Set::empty(),
        casted_votes: 0,
        keepers: initial_keepers,
        trust_list: Map::empty(),
        balances: Map::empty().insert(deployer, (supply, supply)),
        withdrawable: Map::empty(),
    }
}

/// Transfer transition. A sender balance below `amount` is a silent no-op.
/// Otherwise the sender is debited first and the recipient then credited from
/// the updated ledger (so a self-transfer nets to no change). While a vote is
/// active the snapshots of both parties are left untouched; otherwise balance
/// and snapshot move together. `None` is the aborted call: the recipient
/// credit would overflow, and no state change survives.
pub open spec fn transfer_spec(
    s: DaoView,
    sender: AccountId,
    recipient: AccountId,
    amount: u32,
) -> Option<DaoView> {
    if s.balance_of(sender) < amount {
        Some(s)
    } else {
        let debited = (s.balance_of(sender) - amount) as u32;
        let sender_power = if s.vote_active() {
            s.voting_power_of(sender)
        } else {
            debited
        };
        let s1 = DaoView { balances: s.balances.insert(sender, (debited, sender_power)), ..s };
        if s1.balance_of(recipient) + amount > u32::MAX {
            None
        } else {
            let credited = (s1.balance_of(recipient) + amount) as u32;
            let recipient_power = if s.vote_active() {
                s1.voting_power_of(recipient)
            } else {
                credited
            };
            Some(
                DaoView {
                    balances: s1.balances.insert(recipient, (credited, recipient_power)),
                    ..s1
                },
            )
        }
    }
}

/// Vote-initialization transition. The guard (idle action slot, and the
/// cooldown block strictly passed) failing is a silent no-op. `None` is the
/// aborted call: a deadline computation would overflow.
pub open spec fn initialize_vote_spec(s: DaoView, current_block: u32, vote: VoteType) -> Option<
    DaoView,
> {
    if s.vote_active() || current_block <= s.earliest_next_vote_block {
        Some(s)
    } else if current_block + VOTING_PERIOD + VOTE_COOLDOWN > u32::MAX {
        None
    } else {
        Some(
            DaoView {
                vote,
                casted_votes: 0,
                voters: Set::empty(),
                vote_end_block: (current_block + VOTING_PERIOD) as u32,
                earliest_next_vote_block: (current_block + VOTING_PERIOD + VOTE_COOLDOWN) as u32,
                ..s
            },
        )
    }
}

/// Vote-casting transition. A repeated voter, or a cast at or past the
/// deadline, is a silent no-op. A successful cast always records the voter;
/// only an in-favor cast adds the caller's frozen snapshot to the tally.
/// `None` is the aborted call: the tally addition would overflow.
pub open spec fn cast_vote_spec(
    s: DaoView,
    sender: AccountId,
    current_block: u32,
    in_favor: bool,
) -> Option<DaoView> {
    if s.voters.contains(sender) || current_block >= s.vote_end_block {
        Some(s)
    } else if in_favor && s.casted_votes + s.voting_power_of(sender) > u32::MAX {
        None
    } else {
        let tally = if in_favor {
            (s.casted_votes + s.voting_power_of(sender)) as u32
        } else {
            s.casted_votes
        };
        Some(DaoView { casted_votes: tally, voters: s.voters.insert(sender), ..s })
    }
}

/// First keeper slot equal to `old_keeper` is replaced by `new_keeper`; with
/// no match the set is unchanged.
pub open spec fn replace_first_keeper(
    keepers: Seq<AccountId>,
    old_keeper: AccountId,
    new_keeper: AccountId,
) -> Seq<AccountId> {
    if keepers.len() == 3 {
        if keepers[0] == old_keeper {
            keepers.update(0, new_keeper)
        } else if keepers[1] == old_keeper {
            keepers.update(1, new_keeper)
        } else if keepers[2] == old_keeper {
            keepers.update(2, new_keeper)
        } else {
            keepers
        }
    } else {
        keepers
    }
}

/// Effect table of a passed proposal. `AddToTrustList` applies only when the
/// target's escrow deposit strictly exceeds the threshold.
pub open spec fn apply_action_spec(s: DaoView, action: VoteType) -> DaoView {
    match action {
        VoteType::NoAction => s,
        VoteType::ChangeKeeper(old_keeper, new_keeper) => DaoView {
            keepers: replace_first_keeper(s.keepers, old_keeper, new_keeper),
            ..s
        },
        VoteType::AddToTrustList(account, keys) => {
            if s.deposit_of(account) > TRUST_DEPOSIT_THRESHOLD {
                DaoView { trust_list: s.trust_list.insert(account, keys), ..s }
            } else {
                s
            }
        },
        VoteType::RemoveFromTrustList(account) => DaoView {
            trust_list: s.trust_list.remove(account),
            ..s
        },
        VoteType::SlashParticipant(account) => DaoView {
            withdrawable: s.withdrawable.remove(account),
            ..s
        },
    }
}

/// Proposal slot, tally and voter set are reset; the cooldown block set at
/// initialization deliberately persists.
pub open spec fn clear_vote_spec(s: DaoView) -> DaoView {
    DaoView { casted_votes: 0, voters: Set::empty(), vote: VoteType::NoAction, ..s }
}

/// Finalization transition. Before the deadline has strictly passed, or with
/// no active proposal, a silent no-op. Otherwise the action is applied exactly
/// when quorum is reached, and the proposal state is cleared either way.
pub open spec fn finalize_vote_spec(s: DaoView, current_block: u32) -> DaoView {
    if current_block > s.vote_end_block && s.vote_active() {
        if s.quorum_reached() {
            clear_vote_spec(apply_action_spec(s, s.vote))
        } else {
            clear_vote_spec(s)
        }
    } else {
        s
    }
}

/// Deposit transition: the attached value replaces any prior deposit.
pub open spec fn deposit_spec(s: DaoView, sender: AccountId, value: u32) -> DaoView {
    DaoView { withdrawable: s.withdrawable.insert(sender, value), ..s }
}

/// Withdrawal transition: the caller's escrow entry is removed outright.
pub open spec fn withdraw_spec(s: DaoView, sender: AccountId) -> DaoView {
    DaoView { withdrawable: s.withdrawable.remove(sender), ..s }
}

} // verus!
