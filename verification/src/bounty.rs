//! The bounty engine: creating and funding bounties, staking work on them, and handing the
//! funds back from escrow.

pub mod benchmarking;
pub mod laws;
pub mod proofs;
pub mod state;

use crate::authorization::Registry;
use crate::bounty::proofs::{
    lemma_announce_keeps_inv, lemma_cancel_keeps_inv, lemma_contribution_position,
    lemma_create_keeps_inv, lemma_entry_position, lemma_fund_keeps_inv,
    lemma_inv_rests_on_escrows, lemma_no_contributions, lemma_share_is_held,
    lemma_slash_within_stake,
    lemma_withdraw_creator_funding_keeps_inv, lemma_withdraw_funding_keeps_inv,
    lemma_withdraw_work_entry_keeps_inv,
};
use crate::bounty::state::{
    contributed_to, contribution_at, entry_at, stage_allows, stage_of, stake_slash,
    BountyAction, BountyStage, State,
};
use crate::common::RawOrigin;
use crate::ledger::{AccountId, Ledger, LedgerError};
use crate::sums::{lemma_sum_prefix, lemma_sum_take_next, sum_by};
use std::collections::HashMap;
use vstd::prelude::*;

verus! {

broadcast use vstd::std_specs::hash::group_hash_axioms;

/// Who creates, funds or administers a bounty.
#[derive(Clone, Copy, PartialEq, Eq, Structural, Debug)]
pub enum BountyActor {
    /// The council, which acts by the root origin and pays from its budget.
    Council,
    /// The member with this id.
    Member(u64),
}

impl Default for BountyActor {
    fn default() -> (actor: BountyActor)
        ensures
            actor == BountyActor::Council,
    {
        BountyActor::Council
    }
}

/// What a bounty is created with.
#[derive(Clone, Copy, PartialEq, Eq, Debug)]
pub struct BountyCreationParameters {
    /// Who creates the bounty and may cancel it.
    pub creator: BountyActor,
    /// What the creator puts in for the funders, should the bounty fail.
    pub cherry: u64,
    /// The creator's own funding.
    pub creator_funding: u64,
    /// The lower end of the funding target.
    pub min_amount: u64,
    /// The funding target.
    pub max_amount: u64,
    /// The stake that announcing a work entry takes.
    pub entrant_stake: u64,
    /// The number of blocks for which funding is open; open-ended where there is none.
    pub funding_period: Option<u64>,
    /// The number of blocks for which work is taken, from the block the target was reached in.
    pub work_period: u64,
    /// The number of blocks for judging, from the end of the work period.
    pub judging_period: u64,
}

impl Default for BountyCreationParameters {
    fn default() -> (params: BountyCreationParameters)
        ensures
            params == (BountyCreationParameters {
                creator: BountyActor::Council,
                cherry: 0,
                creator_funding: 0,
                min_amount: 0,
                max_amount: 0,
                entrant_stake: 0,
                funding_period: None,
                work_period: 0,
                judging_period: 0,
            }),
    {
        BountyCreationParameters {
            creator: BountyActor::Council,
            cherry: 0,
            creator_funding: 0,
            min_amount: 0,
            max_amount: 0,
            entrant_stake: 0,
            funding_period: None,
            work_period: 0,
            judging_period: 0,
        }
    }
}

/// What is known of a bounty's progress.
#[derive(Clone, Copy, PartialEq, Eq, Structural, Debug)]
pub enum BountyMilestone {
    /// The bounty was created at this block and its target is not reached.
    Created { created_at: u64 },
    /// The funding reached the target at this block.
    BountyMaxFundingReached { max_funding_reached_at: u64, reached_on_creation: bool },
    /// The bounty was stopped, by its creator, by a veto, or because its funding period ran out
    /// and a funder has begun to take the funds back.
    Canceled,
    /// The creator has taken back its funding.
    CreatorFundsWithdrawn,
}

/// A bounty, with the account of what its escrow still holds for whom.
#[derive(Clone, Copy, PartialEq, Eq, Debug)]
pub struct Bounty {
    pub creation_params: BountyCreationParameters,
    /// All that was ever given to the bounty, the creator's funding included.
    pub total_funding: u64,
    pub milestone: BountyMilestone,
    /// The number of work entries that were announced and not withdrawn.
    pub active_work_entry_count: u32,
    /// The part of the cherry that is still in escrow.
    pub cherry_remaining: u64,
    /// The part of the creator's funding that is still in escrow.
    pub creator_funding_remaining: u64,
    /// The stakes that were lost to the bounty.
    pub forfeited_stake: u64,
}

/// What a funder still has in a bounty.
#[derive(Clone, Copy, PartialEq, Eq, Debug)]
pub struct Contribution {
    pub bounty_id: u64,
    pub funder: BountyActor,
    pub amount: u64,
}

/// A member's announcement of work on a bounty, with its stake.
#[derive(Clone, Copy, PartialEq, Eq, Debug)]
pub struct WorkEntry {
    pub id: u64,
    pub bounty_id: u64,
    pub member_id: u64,
    pub staking_account_id: Option<u64>,
    pub staked_amount: u64,
    pub submitted_at: u64,
}

/// Why a call was rejected.
#[derive(Clone, Copy, PartialEq, Eq, Structural, Debug)]
pub enum Error {
    /// The origin is not the one of the actor that the call names.
    BadOrigin,
    /// Min funding amount cannot be greater than max amount.
    MinFundingAmountCannotBeGreaterThanMaxAmount,
    /// Bounty doesnt exist.
    BountyDoesntExist,
    /// Operation can be performed only by a bounty creator.
    NotBountyActor,
    /// Work period cannot be zero.
    WorkPeriodCannotBeZero,
    /// Judging period cannot be zero.
    JudgingPeriodCannotBeZero,
    /// Unexpected bounty stage for an operation.
    InvalidBountyStage,
    /// Insufficient balance for a bounty cherry or funding.
    InsufficientBalanceForBounty,
    /// Cherry less than minimum allowed.
    CherryLessThenMinimumAllowed,
    /// Funding amount less than minimum allowed.
    FundingLessThenMinimumAllowed,
    /// Cannot fund with zero amount.
    ZeroFundingAmount,
    /// The caller has no contribution in the bounty.
    NotBountyFunder,
    /// There is nothing that the creator could take back.
    NothingToWithdraw,
    /// The bounty asks for a stake and no staking account was given.
    NoStakingAccountProvided,
    /// The staking account holds less than the stake.
    InsufficientBalanceForStake,
    /// The member already has an entry for the bounty staked from this account.
    ConflictingStakes,
    /// The bounty has as many active work entries as are allowed.
    MaxWorkEntryLimitReached,
    /// The member has no such work entry for the bounty.
    WorkEntryDoesntExist,
    /// The account that is to be paid cannot hold the amount beside what it holds.
    Overflow,
}

/// What a successful call reports.
#[derive(Clone, Copy, PartialEq, Eq, Debug)]
pub enum Event {
    /// A bounty was created, with its id and parameters.
    BountyCreated(u64, BountyCreationParameters),
    /// A bounty was canceled by its creator.
    BountyCanceled(u64, BountyActor),
    /// A bounty was vetoed.
    BountyVetoed(u64),
    /// A bounty was funded by an actor with an amount.
    BountyFunded(u64, BountyActor, u64),
    /// A funding brought the bounty to its target.
    BountyMaxFundingReached(u64),
    /// A funder took back its contribution.
    BountyFundingWithdrawal(u64, BountyActor),
    /// The creator took back its funding.
    BountyCreatorFundingWithdrawal(u64, BountyActor),
    /// A withdrawal emptied the bounty and it was erased.
    BountyRemoved(u64),
    /// A work entry was announced: entry, bounty, member, staking account.
    WorkEntryAnnounced(u64, u64, u64, Option<u64>),
    /// A work entry was withdrawn: bounty, entry, member.
    WorkEntryWithdrawn(u64, u64, u64),
}

/// The bounty engine: the bounties, what their funders have in them, the work entries, the
/// members and the ledger that holds the accounts and the escrow of every bounty.
pub struct Module {
    min_cherry_limit: u64,
    min_funding_limit: u64,
    max_work_entry_limit: u32,
    bounty_count: u64,
    bounties: HashMap<u64, Bounty>,
    contributions: Vec<Contribution>,
    entry_count: u64,
    entries: Vec<WorkEntry>,
    members: Registry,
    ledger: Ledger,
}

impl View for Module {
    type V = State;

    closed spec fn view(&self) -> State {
        State {
            min_cherry_limit: self.min_cherry_limit,
            min_funding_limit: self.min_funding_limit,
            max_work_entry_limit: self.max_work_entry_limit,
            bounty_count: self.bounty_count,
            bounties: self.bounties@,
            contributions: self.contributions@,
            entry_count: self.entry_count,
            entries: self.entries@,
            members: self.members@,
            balances: self.ledger@,
            total_issuance: self.ledger.total_issuance(),
        }
    }
}

/// The stage of the bounty at block `now`.
pub fn get_bounty_stage(bounty: &Bounty, now: u64) -> (stage: BountyStage)
    ensures
        stage == stage_of(*bounty, now),
{
    match bounty.milestone {
        BountyMilestone::Created { created_at } => {
            let expired = match bounty.creation_params.funding_period {
                None => false,
                Some(period) => now > created_at.saturating_add(period),
            };
            if expired {
                BountyStage::Withdrawal { funding_failed: true }
            } else {
                BountyStage::Funding {
                    has_contributions: bounty.total_funding
                        > bounty.creation_params.creator_funding,
                }
            }
        },
        BountyMilestone::BountyMaxFundingReached { max_funding_reached_at, .. } => {
            let work_ends = max_funding_reached_at.saturating_add(
                bounty.creation_params.work_period,
            );
            let judging_ends = work_ends.saturating_add(bounty.creation_params.judging_period);
            if now <= work_ends {
                BountyStage::WorkSubmission
            } else if now <= judging_ends {
                BountyStage::Judgment
            } else {
                BountyStage::Withdrawal { funding_failed: false }
            }
        },
        BountyMilestone::Canceled => BountyStage::Withdrawal { funding_failed: true },
        BountyMilestone::CreatorFundsWithdrawn => BountyStage::Withdrawal {
            funding_failed: bounty.total_funding < bounty.creation_params.max_amount,
        },
    }
}

/// Whether a bounty in this stage takes the action.
pub fn ensure_bounty_stage(stage: BountyStage, action: BountyAction) -> (res: Result<(), Error>)
    ensures
        res == if stage_allows(stage, action) {
            Ok::<(), Error>(())
        } else {
            Err::<(), Error>(Error::InvalidBountyStage)
        },
{
    let allowed = match action {
        BountyAction::Fund => match stage {
            BountyStage::Funding { .. } => true,
            _ => false,
        },
        BountyAction::Cancel | BountyAction::Veto => match stage {
            BountyStage::Funding { has_contributions } => !has_contributions,
            _ => false,
        },
        BountyAction::WithdrawFunding => match stage {
            BountyStage::Withdrawal { funding_failed } => funding_failed,
            _ => false,
        },
        BountyAction::WithdrawCreatorFunding => match stage {
            BountyStage::Withdrawal { .. } => true,
            _ => false,
        },
        BountyAction::AnnounceWorkEntry | BountyAction::WithdrawWorkEntry => match stage {
            BountyStage::WorkSubmission => true,
            _ => false,
        },
    };
    if allowed {
        Ok(())
    } else {
        Err(Error::InvalidBountyStage)
    }
}

impl Module {
    /// The engine's own invariant; it implies the invariant of the state.
    pub closed spec fn wf(&self) -> bool {
        &&& self.ledger.wf()
        &&& self@.inv()
    }

    /// What `wf` gives to a caller.
    pub proof fn lemma_wf_implies_inv(&self)
        requires
            self.wf(),
        ensures
            self@.inv(),
            forall|who: AccountId| #[trigger] self@.balances[who] <= self@.total_issuance,
    {
        assert forall|who: AccountId| #[trigger] self@.balances[who] <= self@.total_issuance by {
            self.ledger.lemma_balance_bounded(who);
        }
    }

    // Whatever the ledger holds fits in a balance.
    proof fn lemma_balances_fit(&self)
        requires
            self.ledger.wf(),
        ensures
            forall|who: AccountId| #[trigger] self@.balances[who] <= u64::MAX,
    {
        assert forall|who: AccountId| #[trigger] self@.balances[who] <= u64::MAX by {
            self.ledger.lemma_balance_bounded(who);
        }
    }

    /// An engine without bounties or members in which every account holds zero.
    pub fn new(
        min_cherry_limit: u64,
        min_funding_limit: u64,
        max_work_entry_limit: u32,
    ) -> (module: Module)
        ensures
            module.wf(),
            module@.min_cherry_limit == min_cherry_limit,
            module@.min_funding_limit == min_funding_limit,
            module@.max_work_entry_limit == max_work_entry_limit,
            module@.bounty_count == 0,
            module@.bounties == Map::<u64, Bounty>::empty(),
            module@.contributions == Seq::<Contribution>::empty(),
            module@.entry_count == 0,
            module@.entries == Seq::<WorkEntry>::empty(),
            module@.members == Map::<u64, u64>::empty(),
            module@.total_issuance == 0,
            forall|who: AccountId| module@.balances[who] == 0,
    {
        Module {
            min_cherry_limit,
            min_funding_limit,
            max_work_entry_limit,
            bounty_count: 0,
            bounties: HashMap::new(),
            contributions: Vec::new(),
            entry_count: 0,
            entries: Vec::new(),
            members: Registry::new(),
            ledger: Ledger::new(),
        }
    }
}

impl Module {
    // ---- what the engine holds ----

    /// The number of bounties created so far.
    pub fn bounty_count(&self) -> (count: u64)
        ensures
            count == self@.bounty_count,
    {
        self.bounty_count
    }

    /// The number of work entries announced so far.
    pub fn entry_count(&self) -> (count: u64)
        ensures
            count == self@.entry_count,
    {
        self.entry_count
    }

    /// The bounty with this id, if it exists.
    pub fn bounties(&self, bounty_id: u64) -> (bounty: Option<Bounty>)
        ensures
            bounty == if self@.bounties.contains_key(bounty_id) {
                Some(self@.bounties[bounty_id])
            } else {
                None
            },
    {
        match self.bounties.get(&bounty_id) {
            Some(bounty) => Some(*bounty),
            None => None,
        }
    }

    /// The escrow account of the bounty.
    pub fn bounty_account_id(bounty_id: u64) -> (account: AccountId)
        ensures
            account == AccountId::Bounty(bounty_id),
    {
        AccountId::Bounty(bounty_id)
    }

    /// What the account holds.
    pub fn free_balance(&self, who: AccountId) -> (balance: u64)
        requires
            self.wf(),
        ensures
            balance == self@.balances[who],
    {
        self.ledger.free_balance(who)
    }

    /// The sum of what all accounts hold.
    pub fn total_issuance(&self) -> (total: u128)
        ensures
            total == self@.total_issuance,
    {
        self.ledger.issuance()
    }

    /// What the council may spend.
    pub fn get_council_budget(&self) -> (budget: u64)
        requires
            self.wf(),
        ensures
            budget == self@.balances[AccountId::CouncilBudget],
    {
        self.ledger.free_balance(AccountId::CouncilBudget)
    }

    /// Binds the member to its controller account, in place of any it was bound to.
    pub fn set_member_account(&mut self, member_id: u64, account_id: u64)
        requires
            old(self).wf(),
        ensures
            final(self).wf(),
            final(self)@ == (State {
                members: old(self)@.members.insert(member_id, account_id),
                ..old(self)@
            }),
    {
        self.members.bind(member_id, account_id);
        proof {
            self.lemma_balances_fit();
            lemma_inv_rests_on_escrows(old(self)@, self@);
        }
    }

    /// Creates `amount` in an outside account, unless the account cannot hold it.
    pub fn increase_account_balance(
        &mut self,
        account_id: u64,
        amount: u64,
    ) -> (res: Result<(), LedgerError>)
        requires
            old(self).wf(),
        ensures
            final(self).wf(),
            res.is_ok() <==> old(self)@.balances[AccountId::External(account_id)] + amount
                <= u64::MAX,
            res.is_ok() ==> final(self)@ == (State {
                balances: crate::ledger::credit(
                    old(self)@.balances,
                    AccountId::External(account_id),
                    amount as nat,
                ),
                total_issuance: (old(self)@.total_issuance + amount) as nat,
                ..old(self)@
            }),
            res.is_err() ==> res == Err::<(), LedgerError>(LedgerError::Overflow) && final(self)@
                == old(self)@,
    {
        let res = self.ledger.deposit(AccountId::External(account_id), amount);
        proof {
            self.lemma_balances_fit();
            lemma_inv_rests_on_escrows(old(self)@, self@);
        }
        res
    }

    /// Makes `balance` what an outside account holds, whatever it held.
    pub fn set_account_balance(&mut self, account_id: u64, balance: u64)
        requires
            old(self).wf(),
        ensures
            final(self).wf(),
            final(self)@ == (State {
                balances: old(self)@.balances.insert(
                    AccountId::External(account_id),
                    balance as nat,
                ),
                total_issuance: (old(self)@.total_issuance
                    - old(self)@.balances[AccountId::External(account_id)] + balance) as nat,
                ..old(self)@
            }),
    {
        proof {
            self.ledger.lemma_balance_bounded(AccountId::External(account_id));
        }
        self.ledger.set_balance(AccountId::External(account_id), balance);
        proof {
            self.lemma_balances_fit();
            lemma_inv_rests_on_escrows(old(self)@, self@);
        }
    }

    /// Sets what the council may spend, whatever it could.
    pub fn set_council_budget(&mut self, budget: u64)
        requires
            old(self).wf(),
        ensures
            final(self).wf(),
            final(self)@ == (State {
                balances: old(self)@.balances.insert(AccountId::CouncilBudget, budget as nat),
                total_issuance: (old(self)@.total_issuance
                    - old(self)@.balances[AccountId::CouncilBudget] + budget) as nat,
                ..old(self)@
            }),
    {
        proof {
            self.ledger.lemma_balance_bounded(AccountId::CouncilBudget);
        }
        self.ledger.set_balance(AccountId::CouncilBudget, budget);
        proof {
            self.lemma_balances_fit();
            lemma_inv_rests_on_escrows(old(self)@, self@);
        }
    }

    fn find_contribution(&self, bounty_id: u64, funder: BountyActor) -> (found: Option<usize>)
        requires
            self.wf(),
        ensures
            match found {
                Some(i) => contribution_at(self@.contributions, i as int, bounty_id, funder)
                    && self@.has_contribution(bounty_id, funder) && self@.contribution_position(
                    bounty_id,
                    funder,
                ) == i,
                None => !self@.has_contribution(bounty_id, funder),
            },
    {
        let mut i: usize = 0;
        while i < self.contributions.len()
            invariant
                self.wf(),
                i <= self.contributions@.len(),
                forall|j: int|
                    0 <= j < i ==> !contribution_at(self.contributions@, j, bounty_id, funder),
            decreases self.contributions@.len() - i,
        {
            let c = &self.contributions[i];
            if c.bounty_id == bounty_id && c.funder == funder {
                proof {
                    lemma_contribution_position(self@, i as int, bounty_id, funder);
                }
                return Some(i);
            }
            i += 1;
        }
        None
    }

    /// What the funder still has in the bounty.
    pub fn contribution_by_bounty_by_actor(
        &self,
        bounty_id: u64,
        funder: BountyActor,
    ) -> (amount: u64)
        requires
            self.wf(),
        ensures
            amount == self@.contribution_by_bounty_by_actor(bounty_id, funder),
    {
        match self.find_contribution(bounty_id, funder) {
            Some(i) => self.contributions[i].amount,
            None => 0,
        }
    }

    /// Whether any funder still has something in the bounty.
    pub fn contributions_exist(&self, bounty_id: u64) -> (any: bool)
        ensures
            any == self@.contributions_exist(bounty_id),
    {
        let mut i: usize = 0;
        while i < self.contributions.len()
            invariant
                i <= self.contributions@.len(),
                forall|j: int|
                    0 <= j < i ==> (#[trigger] self.contributions@[j]).bounty_id != bounty_id,
            decreases self.contributions@.len() - i,
        {
            if self.contributions[i].bounty_id == bounty_id {
                return true;
            }
            i += 1;
        }
        false
    }

    /// The sum of what the funders still have in the bounty.
    pub fn contribution_total(&self, bounty_id: u64) -> (total: u64)
        requires
            self.wf(),
        ensures
            total == self@.contribution_total(bounty_id),
    {
        proof {
            if self@.bounties.contains_key(bounty_id) {
                self.ledger.lemma_balance_bounded(AccountId::Bounty(bounty_id));
            } else {
                assert forall|i: int| 0 <= i < self@.contributions.len() implies (
                #[trigger] self@.contributions[i]).bounty_id != bounty_id by {
                    assert(self@.bounties.contains_key(self@.contributions[i].bounty_id));
                }
                lemma_no_contributions(self@.contributions, bounty_id);
            }
        }
        let mut total: u64 = 0;
        let mut i: usize = 0;
        while i < self.contributions.len()
            invariant
                i <= self.contributions@.len(),
                total == sum_by(self.contributions@.take(i as int), contributed_to(bounty_id)),
                sum_by(self.contributions@, contributed_to(bounty_id)) <= u64::MAX,
            decreases self.contributions@.len() - i,
        {
            proof {
                lemma_sum_take_next(self.contributions@, i as int, contributed_to(bounty_id));
                lemma_sum_prefix(self.contributions@, i + 1, contributed_to(bounty_id));
            }
            if self.contributions[i].bounty_id == bounty_id {
                total += self.contributions[i].amount;
            }
            i += 1;
        }
        proof {
            assert(self.contributions@.take(i as int) =~= self.contributions@);
        }
        total
    }

    fn find_entry(&self, bounty_id: u64, entry_id: u64, member_id: u64) -> (found: Option<usize>)
        requires
            self.wf(),
        ensures
            match found {
                Some(i) => entry_at(self@.entries, i as int, bounty_id, entry_id, member_id)
                    && self@.has_entry(bounty_id, entry_id, member_id) && self@.entry_position(
                    bounty_id,
                    entry_id,
                    member_id,
                ) == i,
                None => !self@.has_entry(bounty_id, entry_id, member_id),
            },
    {
        let mut i: usize = 0;
        while i < self.entries.len()
            invariant
                self.wf(),
                i <= self.entries@.len(),
                forall|j: int|
                    0 <= j < i ==> !entry_at(self.entries@, j, bounty_id, entry_id, member_id),
            decreases self.entries@.len() - i,
        {
            let e = &self.entries[i];
            if e.id == entry_id && e.bounty_id == bounty_id && e.member_id == member_id {
                proof {
                    lemma_entry_position(self@, i as int, bounty_id, entry_id, member_id);
                }
                return Some(i);
            }
            i += 1;
        }
        None
    }

    /// The member's active work entry for the bounty with this id, if there is one.
    pub fn entries(
        &self,
        bounty_id: u64,
        entry_id: u64,
        member_id: u64,
    ) -> (entry: Option<WorkEntry>)
        requires
            self.wf(),
        ensures
            entry == if self@.has_entry(bounty_id, entry_id, member_id) {
                Some(self@.entries[self@.entry_position(bounty_id, entry_id, member_id)])
            } else {
                None
            },
    {
        match self.find_entry(bounty_id, entry_id, member_id) {
            Some(i) => Some(self.entries[i]),
            None => None,
        }
    }

    fn has_conflicting_stake(
        &self,
        bounty_id: u64,
        member_id: u64,
        account_id: u64,
    ) -> (conflict: bool)
        ensures
            conflict == self@.has_conflicting_stake(bounty_id, member_id, account_id),
    {
        let mut i: usize = 0;
        while i < self.entries.len()
            invariant
                i <= self.entries@.len(),
                forall|j: int|
                    0 <= j < i ==> !((#[trigger] self.entries@[j]).bounty_id == bounty_id
                        && self.entries@[j].member_id == member_id
                        && self.entries@[j].staking_account_id == Some(account_id)),
            decreases self.entries@.len() - i,
        {
            let e = &self.entries[i];
            let same_account = match e.staking_account_id {
                Some(staked_from) => staked_from == account_id,
                None => false,
            };
            if e.bounty_id == bounty_id && e.member_id == member_id && same_account {
                return true;
            }
            i += 1;
        }
        false
    }

    // ---- who is calling ----

    fn member_account(&self, origin: RawOrigin, member_id: u64) -> (res: Result<u64, Error>)
        ensures
            res == self@.member_account(origin, member_id),
    {
        match self.members.signed_by(origin, member_id) {
            Some(account_id) => Ok(account_id),
            None => Err(Error::BadOrigin),
        }
    }

    fn actor_account(
        &self,
        origin: RawOrigin,
        actor: BountyActor,
    ) -> (res: Result<AccountId, Error>)
        ensures
            res == self@.actor_account(origin, actor),
    {
        match actor {
            BountyActor::Council => match origin {
                RawOrigin::Root => Ok(AccountId::CouncilBudget),
                _ => Err(Error::BadOrigin),
            },
            BountyActor::Member(member_id) => match self.member_account(origin, member_id) {
                Ok(account_id) => Ok(AccountId::External(account_id)),
                Err(e) => Err(e),
            },
        }
    }

    // ---- the calls ----

    /// Creates a bounty and moves the cherry and the creator's funding into its escrow.
    pub fn create_bounty(
        &mut self,
        now: u64,
        origin: RawOrigin,
        params: BountyCreationParameters,
        metadata: Vec<u8>,
    ) -> (res: Result<Event, Error>)
        requires
            old(self).wf(),
            old(self)@.bounty_count < u64::MAX,
        ensures
            final(self).wf(),
            res == old(self)@.create_bounty_result(now, origin, params),
            final(self)@ == old(self)@.create_bounty(now, origin, params),
    {
        let _ = metadata;
        let payer = match self.actor_account(origin, params.creator) {
            Ok(payer) => payer,
            Err(e) => {
                return Err(e);
            },
        };
        if params.cherry < self.min_cherry_limit {
            return Err(Error::CherryLessThenMinimumAllowed);
        }
        if params.work_period == 0 {
            return Err(Error::WorkPeriodCannotBeZero);
        }
        if params.judging_period == 0 {
            return Err(Error::JudgingPeriodCannotBeZero);
        }
        if params.min_amount > params.max_amount {
            return Err(Error::MinFundingAmountCannotBeGreaterThanMaxAmount);
        }
        proof {
            self.ledger.lemma_balance_bounded(payer);
        }
        let amount = match params.cherry.checked_add(params.creator_funding) {
            Some(amount) => amount,
            None => {
                return Err(Error::InsufficientBalanceForBounty);
            },
        };
        if self.ledger.free_balance(payer) < amount {
            return Err(Error::InsufficientBalanceForBounty);
        }
        //
        // == MUTATION SAFE ==
        //

        let bounty_id = self.bounty_count + 1;
        proof {
            assert(!self@.bounties.contains_key(bounty_id));
            assert(self@.escrow_balance(bounty_id) == 0);
        }
        self.ledger.transfer_held(payer, AccountId::Bounty(bounty_id), amount);
        let milestone = if params.creator_funding >= params.max_amount {
            BountyMilestone::BountyMaxFundingReached {
                max_funding_reached_at: now,
                reached_on_creation: true,
            }
        } else {
            BountyMilestone::Created { created_at: now }
        };
        self.bounty_count = bounty_id;
        self.bounties.insert(
            bounty_id,
            Bounty {
                creation_params: params,
                total_funding: params.creator_funding,
                milestone,
                active_work_entry_count: 0,
                cherry_remaining: params.cherry,
                creator_funding_remaining: params.creator_funding,
                forfeited_stake: 0,
            },
        );
        proof {
            lemma_create_keeps_inv(old(self)@, now, origin, params);
        }
        Ok(Event::BountyCreated(bounty_id, params))
    }

    /// Cancels a bounty that nobody but its creator has funded. Only the creator may.
    pub fn cancel_bounty(
        &mut self,
        now: u64,
        origin: RawOrigin,
        creator: BountyActor,
        bounty_id: u64,
    ) -> (res: Result<Event, Error>)
        requires
            old(self).wf(),
        ensures
            final(self).wf(),
            res == old(self)@.cancel_bounty_result(now, origin, creator, bounty_id),
            final(self)@ == old(self)@.cancel_bounty(now, origin, creator, bounty_id),
    {
        match self.actor_account(origin, creator) {
            Ok(_) => {},
            Err(e) => {
                return Err(e);
            },
        }
        let bounty = match self.bounties(bounty_id) {
            Some(bounty) => bounty,
            None => {
                return Err(Error::BountyDoesntExist);
            },
        };
        if bounty.creation_params.creator != creator {
            return Err(Error::NotBountyActor);
        }
        match ensure_bounty_stage(get_bounty_stage(&bounty, now), BountyAction::Cancel) {
            Ok(()) => {},
            Err(e) => {
                return Err(e);
            },
        }
        //
        // == MUTATION SAFE ==
        //

        self.bounties.insert(bounty_id, Bounty { milestone: BountyMilestone::Canceled, ..bounty });
        proof {
            lemma_cancel_keeps_inv(old(self)@, now, bounty_id);
        }
        Ok(Event::BountyCanceled(bounty_id, creator))
    }

    /// Cancels a bounty that nobody but its creator has funded, by the root origin.
    pub fn veto_bounty(
        &mut self,
        now: u64,
        origin: RawOrigin,
        bounty_id: u64,
    ) -> (res: Result<Event, Error>)
        requires
            old(self).wf(),
        ensures
            final(self).wf(),
            res == old(self)@.veto_bounty_result(now, origin, bounty_id),
            final(self)@ == old(self)@.veto_bounty(now, origin, bounty_id),
    {
        match origin {
            RawOrigin::Root => {},
            _ => {
                return Err(Error::BadOrigin);
            },
        }
        let bounty = match self.bounties(bounty_id) {
            Some(bounty) => bounty,
            None => {
                return Err(Error::BountyDoesntExist);
            },
        };
        match ensure_bounty_stage(get_bounty_stage(&bounty, now), BountyAction::Veto) {
            Ok(()) => {},
            Err(e) => {
                return Err(e);
            },
        }
        //
        // == MUTATION SAFE ==
        //

        self.bounties.insert(bounty_id, Bounty { milestone: BountyMilestone::Canceled, ..bounty });
        proof {
            lemma_cancel_keeps_inv(old(self)@, now, bounty_id);
        }
        Ok(Event::BountyVetoed(bounty_id))
    }

    /// Moves `amount` from the funder into the bounty's escrow. The funding that brings the
    /// bounty to its target closes the funding.
    pub fn fund_bounty(
        &mut self,
        now: u64,
        origin: RawOrigin,
        funder: BountyActor,
        bounty_id: u64,
        amount: u64,
    ) -> (res: Result<Event, Error>)
        requires
            old(self).wf(),
        ensures
            final(self).wf(),
            res == old(self)@.fund_bounty_result(now, origin, funder, bounty_id, amount),
            final(self)@ == old(self)@.fund_bounty(now, origin, funder, bounty_id, amount),
    {
        let payer = match self.actor_account(origin, funder) {
            Ok(payer) => payer,
            Err(e) => {
                return Err(e);
            },
        };
        let bounty = match self.bounties(bounty_id) {
            Some(bounty) => bounty,
            None => {
                return Err(Error::BountyDoesntExist);
            },
        };
        if amount == 0 {
            return Err(Error::ZeroFundingAmount);
        }
        if amount < self.min_funding_limit {
            return Err(Error::FundingLessThenMinimumAllowed);
        }
        if self.ledger.free_balance(payer) < amount {
            return Err(Error::InsufficientBalanceForBounty);
        }
        match ensure_bounty_stage(get_bounty_stage(&bounty, now), BountyAction::Fund) {
            Ok(()) => {},
            Err(e) => {
                return Err(e);
            },
        }
        if !self.ledger.has_room(AccountId::Bounty(bounty_id), amount) {
            return Err(Error::Overflow);
        }
        //
        // == MUTATION SAFE ==
        //

        proof {
            lemma_fund_keeps_inv(old(self)@, now, origin, funder, bounty_id, amount);
        }
        let found = self.find_contribution(bounty_id, funder);
        self.ledger.transfer_held(payer, AccountId::Bounty(bounty_id), amount);
        match found {
            Some(i) => {
                let held = self.contributions[i];
                self.contributions.set(i, Contribution { amount: held.amount + amount, ..held });
            },
            None => {
                self.contributions.push(Contribution { bounty_id, funder, amount });
            },
        }
        let total_funding = bounty.total_funding + amount;
        let reached = total_funding >= bounty.creation_params.max_amount;
        let milestone = if reached {
            BountyMilestone::BountyMaxFundingReached {
                max_funding_reached_at: now,
                reached_on_creation: false,
            }
        } else {
            bounty.milestone
        };
        self.bounties.insert(bounty_id, Bounty { total_funding, milestone, ..bounty });
        if reached {
            Ok(Event::BountyMaxFundingReached(bounty_id))
        } else {
            Ok(Event::BountyFunded(bounty_id, funder, amount))
        }
    }
}

// The product of `a` and `b` divided by `c`, rounded down, where it fits.
fn mul_div(a: u64, b: u64, c: u64) -> (q: u64)
    requires
        c > 0,
        a * b / (c as int) <= u64::MAX,
    ensures
        q == a * b / (c as int),
{
    assert(a * b <= 0xffff_ffff_ffff_ffff * 0xffff_ffff_ffff_ffff) by (nonlinear_arith)
        requires
            a <= 0xffff_ffff_ffff_ffff,
            b <= 0xffff_ffff_ffff_ffff,
    ;
    assert(0 <= a * b) by (nonlinear_arith)
        requires
            0 <= a,
            0 <= b,
    ;
    let product: u128 = (a as u128) * (b as u128);
    (product / (c as u128)) as u64
}

/// The part of a stake that is lost when the work entry is withdrawn `elapsed` blocks after it
/// was announced.
pub fn calculate_stake_slash(stake: u64, elapsed: u64, work_period: u64) -> (slash: u64)
    ensures
        slash == stake_slash(stake, elapsed as nat, work_period),
        slash <= stake,
{
    proof {
        lemma_slash_within_stake(stake, elapsed as nat, work_period);
    }
    if elapsed >= work_period || work_period == 0 {
        stake
    } else {
        mul_div(stake, elapsed, work_period)
    }
}

impl Module {
    // Stores the bounty, or erases it where nothing is left in it.
    fn settle(&mut self, bounty_id: u64, bounty: Bounty) -> (removed: bool)
        requires
            old(self).ledger.wf(),
        ensures
            final(self).ledger.wf(),
            final(self)@ == old(self)@.settled(bounty_id, bounty),
            removed == old(self)@.is_drained(bounty_id),
    {
        if self.ledger.free_balance(AccountId::Bounty(bounty_id)) == 0 && !self.contributions_exist(
            bounty_id,
        ) {
            self.bounties.remove(&bounty_id);
            true
        } else {
            self.bounties.insert(bounty_id, bounty);
            false
        }
    }

    /// Hands a funder of a failed bounty its contribution back, with its share of the cherry.
    pub fn withdraw_funding(
        &mut self,
        now: u64,
        origin: RawOrigin,
        funder: BountyActor,
        bounty_id: u64,
    ) -> (res: Result<Event, Error>)
        requires
            old(self).wf(),
        ensures
            final(self).wf(),
            res == old(self)@.withdraw_funding_result(now, origin, funder, bounty_id),
            final(self)@ == old(self)@.withdraw_funding(now, origin, funder, bounty_id),
    {
        let payee = match self.actor_account(origin, funder) {
            Ok(payee) => payee,
            Err(e) => {
                return Err(e);
            },
        };
        let bounty = match self.bounties(bounty_id) {
            Some(bounty) => bounty,
            None => {
                return Err(Error::BountyDoesntExist);
            },
        };
        match ensure_bounty_stage(get_bounty_stage(&bounty, now), BountyAction::WithdrawFunding) {
            Ok(()) => {},
            Err(e) => {
                return Err(e);
            },
        }
        let at = match self.find_contribution(bounty_id, funder) {
            Some(at) => at,
            None => {
                return Err(Error::NotBountyFunder);
            },
        };
        proof {
            lemma_share_is_held(self@, bounty_id, funder);
        }
        let contribution = self.contributions[at].amount;
        let remaining = self.contribution_total(bounty_id);
        let given = bounty.total_funding - bounty.creation_params.creator_funding;
        let share = if contribution >= remaining || given == 0 {
            bounty.cherry_remaining
        } else {
            mul_div(bounty.creation_params.cherry, contribution, given)
        };
        if !self.ledger.has_room(payee, contribution + share) {
            return Err(Error::Overflow);
        }
        //
        // == MUTATION SAFE ==
        //

        proof {
            lemma_withdraw_funding_keeps_inv(old(self)@, now, origin, funder, bounty_id);
        }
        self.ledger.transfer_held(AccountId::Bounty(bounty_id), payee, contribution + share);
        self.contributions.remove(at);
        let milestone = match bounty.milestone {
            BountyMilestone::Created { .. } => BountyMilestone::Canceled,
            other => other,
        };
        let removed = self.settle(
            bounty_id,
            Bounty { cherry_remaining: bounty.cherry_remaining - share, milestone, ..bounty },
        );
        if removed {
            Ok(Event::BountyRemoved(bounty_id))
        } else {
            Ok(Event::BountyFundingWithdrawal(bounty_id, funder))
        }
    }

    /// Hands the creator its funding back, and the cherry where nobody else has funded.
    pub fn withdraw_creator_funding(
        &mut self,
        now: u64,
        origin: RawOrigin,
        creator: BountyActor,
        bounty_id: u64,
    ) -> (res: Result<Event, Error>)
        requires
            old(self).wf(),
        ensures
            final(self).wf(),
            res == old(self)@.withdraw_creator_funding_result(now, origin, creator, bounty_id),
            final(self)@ == old(self)@.withdraw_creator_funding(now, origin, creator, bounty_id),
    {
        let payee = match self.actor_account(origin, creator) {
            Ok(payee) => payee,
            Err(e) => {
                return Err(e);
            },
        };
        let bounty = match self.bounties(bounty_id) {
            Some(bounty) => bounty,
            None => {
                return Err(Error::BountyDoesntExist);
            },
        };
        if bounty.creation_params.creator != creator {
            return Err(Error::NotBountyActor);
        }
        match ensure_bounty_stage(
            get_bounty_stage(&bounty, now),
            BountyAction::WithdrawCreatorFunding,
        ) {
            Ok(()) => {},
            Err(e) => {
                return Err(e);
            },
        }
        proof {
            assert(self@.bounties.contains_key(bounty_id));
        }
        let nobody_else_funded = bounty.total_funding <= bounty.creation_params.creator_funding;
        let amount = if nobody_else_funded {
            bounty.creator_funding_remaining + bounty.cherry_remaining
        } else {
            bounty.creator_funding_remaining
        };
        if amount == 0 {
            return Err(Error::NothingToWithdraw);
        }
        if !self.ledger.has_room(payee, amount) {
            return Err(Error::Overflow);
        }
        //
        // == MUTATION SAFE ==
        //

        proof {
            lemma_withdraw_creator_funding_keeps_inv(old(self)@, now, origin, creator, bounty_id);
        }
        self.ledger.transfer_held(AccountId::Bounty(bounty_id), payee, amount);
        let removed = self.settle(
            bounty_id,
            Bounty {
                creator_funding_remaining: 0,
                cherry_remaining: if nobody_else_funded {
                    0
                } else {
                    bounty.cherry_remaining
                },
                milestone: BountyMilestone::CreatorFundsWithdrawn,
                ..bounty
            },
        );
        if removed {
            Ok(Event::BountyRemoved(bounty_id))
        } else {
            Ok(Event::BountyCreatorFundingWithdrawal(bounty_id, creator))
        }
    }

    /// Announces a member's work on a bounty and moves the stake into the bounty's escrow.
    pub fn announce_work_entry(
        &mut self,
        now: u64,
        origin: RawOrigin,
        member_id: u64,
        staking_account_id: Option<u64>,
        bounty_id: u64,
    ) -> (res: Result<Event, Error>)
        requires
            old(self).wf(),
            old(self)@.entry_count < u64::MAX,
        ensures
            final(self).wf(),
            res == old(self)@.announce_work_entry_result(
                now,
                origin,
                member_id,
                staking_account_id,
                bounty_id,
            ),
            final(self)@ == old(self)@.announce_work_entry(
                now,
                origin,
                member_id,
                staking_account_id,
                bounty_id,
            ),
    {
        match self.member_account(origin, member_id) {
            Ok(_) => {},
            Err(e) => {
                return Err(e);
            },
        }
        let bounty = match self.bounties(bounty_id) {
            Some(bounty) => bounty,
            None => {
                return Err(Error::BountyDoesntExist);
            },
        };
        match ensure_bounty_stage(get_bounty_stage(&bounty, now), BountyAction::AnnounceWorkEntry) {
            Ok(()) => {},
            Err(e) => {
                return Err(e);
            },
        }
        let stake = bounty.creation_params.entrant_stake;
        if stake > 0 {
            match staking_account_id {
                None => {
                    return Err(Error::NoStakingAccountProvided);
                },
                Some(account_id) => {
                    if self.ledger.free_balance(AccountId::External(account_id)) < stake {
                        return Err(Error::InsufficientBalanceForStake);
                    }
                    if self.has_conflicting_stake(bounty_id, member_id, account_id) {
                        return Err(Error::ConflictingStakes);
                    }
                },
            }
        }
        if bounty.active_work_entry_count >= self.max_work_entry_limit {
            return Err(Error::MaxWorkEntryLimitReached);
        }
        if stake > 0 && !self.ledger.has_room(AccountId::Bounty(bounty_id), stake) {
            return Err(Error::Overflow);
        }
        //
        // == MUTATION SAFE ==
        //

        proof {
            lemma_announce_keeps_inv(
                old(self)@,
                now,
                origin,
                member_id,
                staking_account_id,
                bounty_id,
            );
        }
        if stake > 0 {
            match staking_account_id {
                None => {},
                Some(account_id) => {
                    self.ledger.transfer_held(
                        AccountId::External(account_id),
                        AccountId::Bounty(bounty_id),
                        stake,
                    );
                },
            }
        }
        let entry_id = self.entry_count + 1;
        self.entry_count = entry_id;
        self.entries.push(
            WorkEntry {
                id: entry_id,
                bounty_id,
                member_id,
                staking_account_id,
                staked_amount: stake,
                submitted_at: now,
            },
        );
        self.bounties.insert(
            bounty_id,
            Bounty { active_work_entry_count: bounty.active_work_entry_count + 1, ..bounty },
        );
        Ok(Event::WorkEntryAnnounced(entry_id, bounty_id, member_id, staking_account_id))
    }

    /// Withdraws a member's work entry. The member gets the stake back less the part of it
    /// that the elapsed part of the work period takes; that part stays with the bounty.
    pub fn withdraw_work_entry(
        &mut self,
        now: u64,
        origin: RawOrigin,
        member_id: u64,
        bounty_id: u64,
        entry_id: u64,
    ) -> (res: Result<Event, Error>)
        requires
            old(self).wf(),
        ensures
            final(self).wf(),
            res == old(self)@.withdraw_work_entry_result(
                now,
                origin,
                member_id,
                bounty_id,
                entry_id,
            ),
            final(self)@ == old(self)@.withdraw_work_entry(
                now,
                origin,
                member_id,
                bounty_id,
                entry_id,
            ),
    {
        match self.member_account(origin, member_id) {
            Ok(_) => {},
            Err(e) => {
                return Err(e);
            },
        }
        let bounty = match self.bounties(bounty_id) {
            Some(bounty) => bounty,
            None => {
                return Err(Error::BountyDoesntExist);
            },
        };
        match ensure_bounty_stage(get_bounty_stage(&bounty, now), BountyAction::WithdrawWorkEntry) {
            Ok(()) => {},
            Err(e) => {
                return Err(e);
            },
        }
        let at = match self.find_entry(bounty_id, entry_id, member_id) {
            Some(at) => at,
            None => {
                return Err(Error::WorkEntryDoesntExist);
            },
        };
        let entry = self.entries[at];
        let elapsed = if now >= entry.submitted_at {
            now - entry.submitted_at
        } else {
            0
        };
        let refund = match entry.staking_account_id {
            Some(account_id) => {
                let slash = calculate_stake_slash(
                    entry.staked_amount,
                    elapsed,
                    bounty.creation_params.work_period,
                );
                let refund = entry.staked_amount - slash;
                if !self.ledger.has_room(AccountId::External(account_id), refund) {
                    return Err(Error::Overflow);
                }
                refund
            },
            None => 0,
        };
        //
        // == MUTATION SAFE ==
        //

        proof {
            lemma_withdraw_work_entry_keeps_inv(
                old(self)@,
                now,
                origin,
                member_id,
                bounty_id,
                entry_id,
            );
        }
        match entry.staking_account_id {
            Some(account_id) => {
                self.ledger.transfer_held(
                    AccountId::Bounty(bounty_id),
                    AccountId::External(account_id),
                    refund,
                );
            },
            None => {},
        }
        self.entries.remove(at);
        self.bounties.insert(
            bounty_id,
            Bounty {
                active_work_entry_count: bounty.active_work_entry_count - 1,
                forfeited_stake: bounty.forfeited_stake + (entry.staked_amount - refund),
                ..bounty
            },
        );
        Ok(Event::WorkEntryWithdrawn(bounty_id, entry_id, member_id))
    }
}

} // verus!
