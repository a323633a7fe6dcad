//! The model of the bounty engine: its state, its invariant, and for every call what the call
//! returns and the state that it leaves.

use crate::authorization::{is_bound, signed_by};
use crate::bounty::{
    Bounty, BountyActor, BountyCreationParameters, BountyMilestone, Contribution, Error, Event,
    WorkEntry,
};
use crate::common::{blocks_between, RawOrigin};
use crate::ledger::{has_room, moved, AccountId};
use crate::sums::sum_by;
use vstd::prelude::*;

verus! {

/// Where a bounty stands at a given block.
#[derive(Clone, Copy, PartialEq, Eq, Structural, Debug)]
pub enum BountyStage {
    /// Funds are collected. The flag says whether anyone but the creator has funded.
    Funding { has_contributions: bool },
    /// The target was reached: members announce work and may withdraw it.
    WorkSubmission,
    /// The work period is over and the judging period is not.
    Judgment,
    /// Funds are handed back. The flag says whether the funding failed, by expiry or by a
    /// cancellation, which is when the funders take back what they gave and the cherry.
    Withdrawal { funding_failed: bool },
}

/// What a caller asks of a bounty.
#[derive(Clone, Copy, PartialEq, Eq, Structural, Debug)]
pub enum BountyAction {
    Fund,
    Cancel,
    Veto,
    WithdrawFunding,
    WithdrawCreatorFunding,
    AnnounceWorkEntry,
    WithdrawWorkEntry,
}

/// The one table of what is allowed when.
pub open spec fn stage_allows(stage: BountyStage, action: BountyAction) -> bool {
    match action {
        BountyAction::Fund => stage is Funding,
        BountyAction::Cancel | BountyAction::Veto => stage == (BountyStage::Funding {
            has_contributions: false,
        }),
        BountyAction::WithdrawFunding => stage == (BountyStage::Withdrawal {
            funding_failed: true,
        }),
        BountyAction::WithdrawCreatorFunding => stage is Withdrawal,
        BountyAction::AnnounceWorkEntry | BountyAction::WithdrawWorkEntry => stage
            is WorkSubmission,
    }
}

/// Whether the funding period of a bounty created at `created_at` is over at `now`.
pub open spec fn funding_expired(created_at: u64, funding_period: Option<u64>, now: u64) -> bool {
    match funding_period {
        None => false,
        Some(period) => now > created_at + period,
    }
}

/// What the funders, the creator not counted, have given to the bounty in all.
pub open spec fn funders_total(bounty: Bounty) -> nat {
    if bounty.total_funding >= bounty.creation_params.creator_funding {
        (bounty.total_funding - bounty.creation_params.creator_funding) as nat
    } else {
        0
    }
}

/// The stage of the bounty at block `now`, from its milestone and its periods. Expiry is not
/// recorded anywhere: it is read off the block number at every call.
pub open spec fn stage_of(bounty: Bounty, now: u64) -> BountyStage {
    let params = bounty.creation_params;
    match bounty.milestone {
        BountyMilestone::Created { created_at } => {
            if funding_expired(created_at, params.funding_period, now) {
                BountyStage::Withdrawal { funding_failed: true }
            } else {
                BountyStage::Funding { has_contributions: funders_total(bounty) > 0 }
            }
        },
        BountyMilestone::BountyMaxFundingReached { max_funding_reached_at, .. } => {
            if now <= max_funding_reached_at + params.work_period {
                BountyStage::WorkSubmission
            } else if now <= max_funding_reached_at + params.work_period + params.judging_period {
                BountyStage::Judgment
            } else {
                BountyStage::Withdrawal { funding_failed: false }
            }
        },
        BountyMilestone::Canceled => BountyStage::Withdrawal { funding_failed: true },
        BountyMilestone::CreatorFundsWithdrawn => BountyStage::Withdrawal {
            funding_failed: bounty.total_funding < params.max_amount,
        },
    }
}

/// The part of a stake that is lost when the work entry is withdrawn `elapsed` blocks after it
/// was announced: the elapsed part of the work period, rounded down, and all of it once the
/// period is over.
pub open spec fn stake_slash(stake: u64, elapsed: nat, work_period: u64) -> nat {
    if elapsed >= work_period || work_period == 0 {
        stake as nat
    } else {
        (stake * elapsed / (work_period as int)) as nat
    }
}

/// The part of the cherry that goes to a funder who takes back `contribution`, while
/// `remaining` is what all funders still have in the bounty. The last funder takes what is
/// left of the cherry; any other takes the part that the contribution is of all that the
/// funders gave, rounded down.
pub open spec fn cherry_share(bounty: Bounty, contribution: u64, remaining: nat) -> nat {
    if contribution >= remaining || funders_total(bounty) == 0 {
        bounty.cherry_remaining as nat
    } else {
        (bounty.creation_params.cherry * contribution / (funders_total(bounty) as int)) as nat
    }
}

/// What the creator can take back: the creator's funding, and the cherry where nobody else
/// has funded.
pub open spec fn creator_refund(bounty: Bounty) -> nat {
    if funders_total(bounty) == 0 {
        (bounty.creator_funding_remaining + bounty.cherry_remaining) as nat
    } else {
        bounty.creator_funding_remaining as nat
    }
}

/// The amount of a contribution to the bounty `bounty_id`, zero for one to another bounty.
pub open spec fn contributed_to(bounty_id: u64) -> spec_fn(Contribution) -> nat {
    |c: Contribution|
        if c.bounty_id == bounty_id {
            c.amount as nat
        } else {
            0nat
        }
}

/// The stake of a work entry of the bounty `bounty_id`, zero for an entry of another bounty.
pub open spec fn staked_on(bounty_id: u64) -> spec_fn(WorkEntry) -> nat {
    |e: WorkEntry|
        if e.bounty_id == bounty_id {
            e.staked_amount as nat
        } else {
            0nat
        }
}

/// One for a work entry of the bounty `bounty_id`, zero for an entry of another bounty.
pub open spec fn entered(bounty_id: u64) -> spec_fn(WorkEntry) -> nat {
    |e: WorkEntry|
        if e.bounty_id == bounty_id {
            1nat
        } else {
            0nat
        }
}

/// The contribution at position `i` is the funder's in the bounty.
pub open spec fn contribution_at(
    contributions: Seq<Contribution>,
    i: int,
    bounty_id: u64,
    funder: BountyActor,
) -> bool {
    &&& 0 <= i < contributions.len()
    &&& contributions[i].bounty_id == bounty_id
    &&& contributions[i].funder == funder
}

/// The work entry at position `i` is the member's entry of this id for the bounty.
pub open spec fn entry_at(
    entries: Seq<WorkEntry>,
    i: int,
    bounty_id: u64,
    entry_id: u64,
    member_id: u64,
) -> bool {
    &&& 0 <= i < entries.len()
    &&& entries[i].id == entry_id
    &&& entries[i].bounty_id == bounty_id
    &&& entries[i].member_id == member_id
}

/// The money of one bounty adds up, and its cherry is paid out in proportion.
pub open spec fn bounty_inv(
    bounty_id: u64,
    bounty: Bounty,
    escrow: nat,
    contributed: nat,
    staked: nat,
    active_entries: nat,
) -> bool {
    let params = bounty.creation_params;
    let given = funders_total(bounty);
    &&& params.work_period > 0
    &&& params.judging_period > 0
    &&& params.min_amount <= params.max_amount
    &&& escrow == bounty.cherry_remaining + bounty.creator_funding_remaining + contributed + staked
        + bounty.forfeited_stake
    &&& params.creator_funding <= bounty.total_funding
    &&& contributed <= given
    &&& bounty.cherry_remaining <= params.cherry
    &&& bounty.creator_funding_remaining <= params.creator_funding
    &&& (params.cherry - bounty.cherry_remaining) * given <= params.cherry * (given - contributed)
    &&& (given > 0 && contributed == 0 ==> bounty.cherry_remaining == 0)
    &&& bounty.active_work_entry_count == active_entries
    &&& match bounty.milestone {
        BountyMilestone::Created { .. } => {
            &&& bounty.total_funding < params.max_amount
            &&& bounty.cherry_remaining == params.cherry
            &&& bounty.creator_funding_remaining == params.creator_funding
            &&& contributed == given
            &&& active_entries == 0
            &&& staked == 0
            &&& bounty.forfeited_stake == 0
        },
        BountyMilestone::BountyMaxFundingReached { .. } => {
            &&& bounty.total_funding >= params.max_amount
            &&& bounty.cherry_remaining == params.cherry
            &&& bounty.creator_funding_remaining == params.creator_funding
            &&& contributed == given
        },
        BountyMilestone::Canceled => {
            &&& bounty.total_funding < params.max_amount
            &&& active_entries == 0
        },
        BountyMilestone::CreatorFundsWithdrawn => {
            &&& bounty.creator_funding_remaining == 0
            &&& bounty.total_funding < params.max_amount ==> active_entries == 0
        },
    }
}

/// Everything the bounty engine keeps between calls.
pub struct State {
    /// The smallest cherry that a bounty may be created with.
    pub min_cherry_limit: u64,
    /// The smallest amount that a bounty may be funded with in one call.
    pub min_funding_limit: u64,
    /// The largest number of active work entries of one bounty.
    pub max_work_entry_limit: u32,
    /// The number of bounties created so far, which is the id of the last one.
    pub bounty_count: u64,
    /// The bounties that exist, by id.
    pub bounties: Map<u64, Bounty>,
    /// What each funder has in each bounty, in storage order.
    pub contributions: Seq<Contribution>,
    /// The number of work entries announced so far, which is the id of the last one.
    pub entry_count: u64,
    /// The active work entries, in storage order.
    pub entries: Seq<WorkEntry>,
    /// The controller account of each member.
    pub members: Map<u64, u64>,
    /// What every account holds.
    pub balances: Map<AccountId, nat>,
    /// The sum of what all accounts hold.
    pub total_issuance: nat,
}

impl State {
    // ---- what is recorded ----

    /// What the escrow account of the bounty holds.
    pub open spec fn escrow_balance(self, bounty_id: u64) -> nat {
        self.balances[AccountId::Bounty(bounty_id)]
    }

    /// The sum of what the funders still have in the bounty.
    pub open spec fn contribution_total(self, bounty_id: u64) -> nat {
        sum_by(self.contributions, contributed_to(bounty_id))
    }

    /// The sum of the stakes of the bounty's active work entries.
    pub open spec fn staked_total(self, bounty_id: u64) -> nat {
        sum_by(self.entries, staked_on(bounty_id))
    }

    /// The number of the bounty's active work entries.
    pub open spec fn active_entries(self, bounty_id: u64) -> nat {
        sum_by(self.entries, entered(bounty_id))
    }

    /// Whether the funder still has something in the bounty.
    pub open spec fn has_contribution(self, bounty_id: u64, funder: BountyActor) -> bool {
        exists|i: int| contribution_at(self.contributions, i, bounty_id, funder)
    }

    /// The position of the funder's contribution; meaningful where the funder has one.
    pub open spec fn contribution_position(self, bounty_id: u64, funder: BountyActor) -> int {
        choose|i: int| contribution_at(self.contributions, i, bounty_id, funder)
    }

    /// What the funder still has in the bounty.
    pub open spec fn contribution_by_bounty_by_actor(
        self,
        bounty_id: u64,
        funder: BountyActor,
    ) -> u64 {
        if self.has_contribution(bounty_id, funder) {
            self.contributions[self.contribution_position(bounty_id, funder)].amount
        } else {
            0
        }
    }

    /// Whether any funder still has something in the bounty.
    pub open spec fn contributions_exist(self, bounty_id: u64) -> bool {
        exists|i: int|
            0 <= i < self.contributions.len() && #[trigger] self.contributions[i].bounty_id
                == bounty_id
    }

    /// Whether the member has an active work entry of this id for the bounty.
    pub open spec fn has_entry(self, bounty_id: u64, entry_id: u64, member_id: u64) -> bool {
        exists|i: int| entry_at(self.entries, i, bounty_id, entry_id, member_id)
    }

    /// The position of the member's work entry; meaningful where the member has it.
    pub open spec fn entry_position(self, bounty_id: u64, entry_id: u64, member_id: u64) -> int {
        choose|i: int| entry_at(self.entries, i, bounty_id, entry_id, member_id)
    }

    /// Whether the member has an active entry for the bounty that is staked from this account.
    pub open spec fn has_conflicting_stake(
        self,
        bounty_id: u64,
        member_id: u64,
        account_id: u64,
    ) -> bool {
        exists|i: int|
            0 <= i < self.entries.len() && (#[trigger] self.entries[i]).bounty_id == bounty_id
                && self.entries[i].member_id == member_id && self.entries[i].staking_account_id
                == Some(account_id)
    }

    /// Whether `account_id` is the controller account of the member.
    pub open spec fn is_member_account(self, member_id: u64, account_id: u64) -> bool {
        is_bound(self.members, member_id, account_id)
    }

    // ---- what holds between calls ----

    /// The bounty stored under `id` has an id that was given out, and its money adds up with
    /// what its escrow holds, what its funders have in it and what its work entries staked.
    pub open spec fn bounty_in_order(self, id: u64) -> bool {
        &&& 1 <= id <= self.bounty_count
        &&& bounty_inv(
            id,
            self.bounties[id],
            self.escrow_balance(id),
            self.contribution_total(id),
            self.staked_total(id),
            self.active_entries(id),
        )
    }

    /// What holds of the state between calls: every balance fits; every bounty's id is one that
    /// was given out and its money adds up; an escrow account without a bounty is empty; every
    /// contribution is positive, to a bounty that exists, and the only one of its funder in it;
    /// every work entry has an id and a bounty that were given out, an account where it has a
    /// stake, and an id of its own.
    pub open spec fn inv(self) -> bool {
        &&& forall|who: AccountId| #[trigger] self.balances[who] <= u64::MAX
        &&& forall|id: u64| #[trigger] self.bounties.contains_key(id) ==> self.bounty_in_order(id)
        &&& forall|id: u64|
            !self.bounties.contains_key(id) ==> #[trigger] self.escrow_balance(id) == 0
        &&& forall|i: int|
            0 <= i < self.contributions.len() ==> (#[trigger] self.contributions[i]).amount > 0
                && self.bounties.contains_key(self.contributions[i].bounty_id)
        &&& forall|i: int, j: int|
            0 <= i < j < self.contributions.len() ==> !((#[trigger] self.contributions[i]).bounty_id
                == (#[trigger] self.contributions[j]).bounty_id && self.contributions[i].funder
                == self.contributions[j].funder)
        &&& forall|i: int|
            0 <= i < self.entries.len() ==> 1 <= (#[trigger] self.entries[i]).id
                <= self.entry_count && 1 <= self.entries[i].bounty_id <= self.bounty_count
                && (self.entries[i].staked_amount > 0 ==> self.entries[i].staking_account_id
                is Some)
        &&& forall|i: int, j: int|
            0 <= i < j < self.entries.len() ==> (#[trigger] self.entries[i]).id
                != (#[trigger] self.entries[j]).id
    }

    // ---- who is calling ----

    /// The account that pays and is paid for the actor, where the origin is the actor's: the
    /// council acts by the root origin, a member by the signature of its controller account.
    pub open spec fn actor_account(
        self,
        origin: RawOrigin,
        actor: BountyActor,
    ) -> Result<AccountId, Error> {
        match actor {
            BountyActor::Council => if origin == RawOrigin::Root {
                Ok(AccountId::CouncilBudget)
            } else {
                Err(Error::BadOrigin)
            },
            BountyActor::Member(member_id) => match self.member_account(origin, member_id) {
                Ok(account_id) => Ok(AccountId::External(account_id)),
                Err(e) => Err(e),
            },
        }
    }

    /// The account that signed, where it is the controller account of the member.
    pub open spec fn member_account(self, origin: RawOrigin, member_id: u64) -> Result<u64, Error> {
        match signed_by(self.members, origin, member_id) {
            Some(account_id) => Ok(account_id),
            None => Err(Error::BadOrigin),
        }
    }

    // ---- create ----

    /// What a call of `create_bounty` returns.
    pub open spec fn create_bounty_result(
        self,
        now: u64,
        origin: RawOrigin,
        params: BountyCreationParameters,
    ) -> Result<Event, Error> {
        match self.actor_account(origin, params.creator) {
            Err(e) => Err(e),
            Ok(payer) => {
                if params.cherry < self.min_cherry_limit {
                    Err(Error::CherryLessThenMinimumAllowed)
                } else if params.work_period == 0 {
                    Err(Error::WorkPeriodCannotBeZero)
                } else if params.judging_period == 0 {
                    Err(Error::JudgingPeriodCannotBeZero)
                } else if params.min_amount > params.max_amount {
                    Err(Error::MinFundingAmountCannotBeGreaterThanMaxAmount)
                } else if self.balances[payer] < params.cherry + params.creator_funding {
                    Err(Error::InsufficientBalanceForBounty)
                } else {
                    Ok(Event::BountyCreated((self.bounty_count + 1) as u64, params))
                }
            },
        }
    }

    /// The milestone of a bounty created at `now`.
    pub open spec fn milestone_on_creation(
        params: BountyCreationParameters,
        now: u64,
    ) -> BountyMilestone {
        if params.creator_funding >= params.max_amount {
            BountyMilestone::BountyMaxFundingReached {
                max_funding_reached_at: now,
                reached_on_creation: true,
            }
        } else {
            BountyMilestone::Created { created_at: now }
        }
    }

    /// The state after the bounty was created at block `now` under the next id, with its cherry
    /// and the creator's funding moved from the creator's account into its escrow. A rejected call
    /// changes nothing.
    pub open spec fn create_bounty(
        self,
        now: u64,
        origin: RawOrigin,
        params: BountyCreationParameters,
    ) -> State {
        if self.create_bounty_result(now, origin, params) is Ok {
            let payer = self.actor_account(origin, params.creator)->Ok_0;
            let bounty_id = (self.bounty_count + 1) as u64;
            State {
                bounty_count: bounty_id,
                bounties: self.bounties.insert(
                    bounty_id,
                    Bounty {
                        creation_params: params,
                        total_funding: params.creator_funding,
                        milestone: Self::milestone_on_creation(params, now),
                        active_work_entry_count: 0,
                        cherry_remaining: params.cherry,
                        creator_funding_remaining: params.creator_funding,
                        forfeited_stake: 0,
                    },
                ),
                balances: moved(
                    self.balances,
                    payer,
                    AccountId::Bounty(bounty_id),
                    (params.cherry + params.creator_funding) as nat,
                ),
                ..self
            }
        } else {
            self
        }
    }

    // ---- cancel and veto ----

    /// What a call of `cancel_bounty` returns.
    pub open spec fn cancel_bounty_result(
        self,
        now: u64,
        origin: RawOrigin,
        creator: BountyActor,
        bounty_id: u64,
    ) -> Result<Event, Error> {
        if self.actor_account(origin, creator) is Err {
            Err(self.actor_account(origin, creator)->Err_0)
        } else if !self.bounties.contains_key(bounty_id) {
            Err(Error::BountyDoesntExist)
        } else if self.bounties[bounty_id].creation_params.creator != creator {
            Err(Error::NotBountyActor)
        } else if !stage_allows(stage_of(self.bounties[bounty_id], now), BountyAction::Cancel) {
            Err(Error::InvalidBountyStage)
        } else {
            Ok(Event::BountyCanceled(bounty_id, creator))
        }
    }

    /// What a call of `veto_bounty` returns.
    pub open spec fn veto_bounty_result(
        self,
        now: u64,
        origin: RawOrigin,
        bounty_id: u64,
    ) -> Result<Event, Error> {
        if origin != RawOrigin::Root {
            Err(Error::BadOrigin)
        } else if !self.bounties.contains_key(bounty_id) {
            Err(Error::BountyDoesntExist)
        } else if !stage_allows(stage_of(self.bounties[bounty_id], now), BountyAction::Veto) {
            Err(Error::InvalidBountyStage)
        } else {
            Ok(Event::BountyVetoed(bounty_id))
        }
    }

    /// The state with the bounty canceled.
    pub open spec fn canceled(self, bounty_id: u64) -> State {
        State {
            bounties: self.bounties.insert(
                bounty_id,
                Bounty { milestone: BountyMilestone::Canceled, ..self.bounties[bounty_id] },
            ),
            ..self
        }
    }

    /// The state after its creator canceled the bounty. A rejected call changes nothing.
    pub open spec fn cancel_bounty(
        self,
        now: u64,
        origin: RawOrigin,
        creator: BountyActor,
        bounty_id: u64,
    ) -> State {
        if self.cancel_bounty_result(now, origin, creator, bounty_id) is Ok {
            self.canceled(bounty_id)
        } else {
            self
        }
    }

    /// The state after the council canceled the bounty by veto. A rejected call changes nothing.
    pub open spec fn veto_bounty(self, now: u64, origin: RawOrigin, bounty_id: u64) -> State {
        if self.veto_bounty_result(now, origin, bounty_id) is Ok {
            self.canceled(bounty_id)
        } else {
            self
        }
    }

    // ---- fund ----

    /// What a call of `fund_bounty` returns.
    pub open spec fn fund_bounty_result(
        self,
        now: u64,
        origin: RawOrigin,
        funder: BountyActor,
        bounty_id: u64,
        amount: u64,
    ) -> Result<Event, Error> {
        match self.actor_account(origin, funder) {
            Err(e) => Err(e),
            Ok(payer) => {
                if !self.bounties.contains_key(bounty_id) {
                    Err(Error::BountyDoesntExist)
                } else if amount == 0 {
                    Err(Error::ZeroFundingAmount)
                } else if amount < self.min_funding_limit {
                    Err(Error::FundingLessThenMinimumAllowed)
                } else if self.balances[payer] < amount {
                    Err(Error::InsufficientBalanceForBounty)
                } else if !stage_allows(
                    stage_of(self.bounties[bounty_id], now),
                    BountyAction::Fund,
                ) {
                    Err(Error::InvalidBountyStage)
                } else if !has_room(self.balances, AccountId::Bounty(bounty_id), amount as nat) {
                    Err(Error::Overflow)
                } else if self.bounties[bounty_id].total_funding + amount
                    >= self.bounties[bounty_id].creation_params.max_amount {
                    Ok(Event::BountyMaxFundingReached(bounty_id))
                } else {
                    Ok(Event::BountyFunded(bounty_id, funder, amount))
                }
            },
        }
    }

    /// The contributions with `amount` added to what the funder has in the bounty.
    pub open spec fn with_contribution(
        self,
        bounty_id: u64,
        funder: BountyActor,
        amount: u64,
    ) -> Seq<Contribution> {
        if self.has_contribution(bounty_id, funder) {
            let at = self.contribution_position(bounty_id, funder);
            self.contributions.update(
                at,
                Contribution {
                    amount: (self.contributions[at].amount + amount) as u64,
                    ..self.contributions[at]
                },
            )
        } else {
            self.contributions.push(Contribution { bounty_id, funder, amount })
        }
    }

    /// The state after the funder paid `amount` into the escrow of the bounty: the amount is added
    /// to the funder's contribution and to the bounty's funding, and the funding has reached its
    /// target at block `now` where it is at `max_amount` or beyond. A rejected call changes
    /// nothing.
    pub open spec fn fund_bounty(
        self,
        now: u64,
        origin: RawOrigin,
        funder: BountyActor,
        bounty_id: u64,
        amount: u64,
    ) -> State {
        if self.fund_bounty_result(now, origin, funder, bounty_id, amount) is Ok {
            let payer = self.actor_account(origin, funder)->Ok_0;
            let bounty = self.bounties[bounty_id];
            let total_funding = (bounty.total_funding + amount) as u64;
            State {
                bounties: self.bounties.insert(
                    bounty_id,
                    Bounty {
                        total_funding,
                        milestone: if total_funding >= bounty.creation_params.max_amount {
                            BountyMilestone::BountyMaxFundingReached {
                                max_funding_reached_at: now,
                                reached_on_creation: false,
                            }
                        } else {
                            bounty.milestone
                        },
                        ..bounty
                    },
                ),
                contributions: self.with_contribution(bounty_id, funder, amount),
                balances: moved(self.balances, payer, AccountId::Bounty(bounty_id), amount as nat),
                ..self
            }
        } else {
            self
        }
    }

    // ---- withdrawals ----

    /// The state with the bounty stored, or erased where its escrow account is empty and no
    /// funder has anything left in it.
    pub open spec fn settled(self, bounty_id: u64, bounty: Bounty) -> State {
        if self.is_drained(bounty_id) {
            State { bounties: self.bounties.remove(bounty_id), ..self }
        } else {
            State { bounties: self.bounties.insert(bounty_id, bounty), ..self }
        }
    }

    /// Nothing is left in the bounty: its escrow account is empty and no funder has a
    /// contribution in it.
    pub open spec fn is_drained(self, bounty_id: u64) -> bool {
        self.escrow_balance(bounty_id) == 0 && !self.contributions_exist(bounty_id)
    }

    /// The account that `withdraw_funding` pays to, where the call is accepted, and why it is
    /// rejected where it is not.
    pub open spec fn withdraw_funding_check(
        self,
        now: u64,
        origin: RawOrigin,
        funder: BountyActor,
        bounty_id: u64,
    ) -> Result<AccountId, Error> {
        match self.actor_account(origin, funder) {
            Err(e) => Err(e),
            Ok(payee) => {
                if !self.bounties.contains_key(bounty_id) {
                    Err(Error::BountyDoesntExist)
                } else if !stage_allows(
                    stage_of(self.bounties[bounty_id], now),
                    BountyAction::WithdrawFunding,
                ) {
                    Err(Error::InvalidBountyStage)
                } else if !self.has_contribution(bounty_id, funder) {
                    Err(Error::NotBountyFunder)
                } else if !has_room(
                    self.balances,
                    payee,
                    (self.contribution_by_bounty_by_actor(bounty_id, funder)
                        + self.cherry_for_funder(bounty_id, funder)) as nat,
                ) {
                    Err(Error::Overflow)
                } else {
                    Ok(payee)
                }
            },
        }
    }

    /// What the funder is paid of the cherry on withdrawing.
    pub open spec fn cherry_for_funder(self, bounty_id: u64, funder: BountyActor) -> nat {
        cherry_share(
            self.bounties[bounty_id],
            self.contribution_by_bounty_by_actor(bounty_id, funder),
            self.contribution_total(bounty_id),
        )
    }

    /// The state after the funder took its contribution back out of the escrow of a failed bounty,
    /// with its share of the cherry: the contribution is erased, and the bounty with it once its
    /// escrow is empty. A rejected call changes nothing.
    pub open spec fn withdraw_funding(
        self,
        now: u64,
        origin: RawOrigin,
        funder: BountyActor,
        bounty_id: u64,
    ) -> State {
        match self.withdraw_funding_check(now, origin, funder, bounty_id) {
            Err(_) => self,
            Ok(payee) => {
                let bounty = self.bounties[bounty_id];
                let at = self.contribution_position(bounty_id, funder);
                let contribution = self.contributions[at].amount;
                let share = self.cherry_for_funder(bounty_id, funder);
                State {
                    contributions: self.contributions.remove(at),
                    balances: moved(
                        self.balances,
                        AccountId::Bounty(bounty_id),
                        payee,
                        (contribution + share) as nat,
                    ),
                    ..self
                }.settled(
                    bounty_id,
                    Bounty {
                        cherry_remaining: (bounty.cherry_remaining - share) as u64,
                        milestone: match bounty.milestone {
                            BountyMilestone::Created { .. } => BountyMilestone::Canceled,
                            other => other,
                        },
                        ..bounty
                    },
                )
            },
        }
    }

    /// What a call of `withdraw_funding` returns.
    pub open spec fn withdraw_funding_result(
        self,
        now: u64,
        origin: RawOrigin,
        funder: BountyActor,
        bounty_id: u64,
    ) -> Result<Event, Error> {
        match self.withdraw_funding_check(now, origin, funder, bounty_id) {
            Err(e) => Err(e),
            Ok(_) => if self.withdraw_funding(now, origin, funder, bounty_id).bounties.contains_key(
                bounty_id,
            ) {
                Ok(Event::BountyFundingWithdrawal(bounty_id, funder))
            } else {
                Ok(Event::BountyRemoved(bounty_id))
            },
        }
    }

    /// The account that `withdraw_creator_funding` pays to, where the call is accepted, and why it
    /// is rejected where it is not.
    pub open spec fn withdraw_creator_funding_check(
        self,
        now: u64,
        origin: RawOrigin,
        creator: BountyActor,
        bounty_id: u64,
    ) -> Result<AccountId, Error> {
        match self.actor_account(origin, creator) {
            Err(e) => Err(e),
            Ok(payee) => {
                if !self.bounties.contains_key(bounty_id) {
                    Err(Error::BountyDoesntExist)
                } else if self.bounties[bounty_id].creation_params.creator != creator {
                    Err(Error::NotBountyActor)
                } else if !stage_allows(
                    stage_of(self.bounties[bounty_id], now),
                    BountyAction::WithdrawCreatorFunding,
                ) {
                    Err(Error::InvalidBountyStage)
                } else if creator_refund(self.bounties[bounty_id]) == 0 {
                    Err(Error::NothingToWithdraw)
                } else if !has_room(
                    self.balances,
                    payee,
                    creator_refund(self.bounties[bounty_id]),
                ) {
                    Err(Error::Overflow)
                } else {
                    Ok(payee)
                }
            },
        }
    }

    /// The state after the creator took out of the escrow what it had funded and, where nobody
    /// else funded the bounty, the cherry; the bounty is erased once its escrow is empty. A
    /// rejected call changes nothing.
    pub open spec fn withdraw_creator_funding(
        self,
        now: u64,
        origin: RawOrigin,
        creator: BountyActor,
        bounty_id: u64,
    ) -> State {
        match self.withdraw_creator_funding_check(now, origin, creator, bounty_id) {
            Err(_) => self,
            Ok(payee) => {
                let bounty = self.bounties[bounty_id];
                State {
                    balances: moved(
                        self.balances,
                        AccountId::Bounty(bounty_id),
                        payee,
                        creator_refund(bounty),
                    ),
                    ..self
                }.settled(
                    bounty_id,
                    Bounty {
                        creator_funding_remaining: 0,
                        cherry_remaining: if funders_total(bounty) == 0 {
                            0
                        } else {
                            bounty.cherry_remaining
                        },
                        milestone: BountyMilestone::CreatorFundsWithdrawn,
                        ..bounty
                    },
                )
            },
        }
    }

    /// What a call of `withdraw_creator_funding` returns.
    pub open spec fn withdraw_creator_funding_result(
        self,
        now: u64,
        origin: RawOrigin,
        creator: BountyActor,
        bounty_id: u64,
    ) -> Result<Event, Error> {
        match self.withdraw_creator_funding_check(now, origin, creator, bounty_id) {
            Err(e) => Err(e),
            Ok(_) => if self.withdraw_creator_funding(
                now,
                origin,
                creator,
                bounty_id,
            ).bounties.contains_key(bounty_id) {
                Ok(Event::BountyCreatorFundingWithdrawal(bounty_id, creator))
            } else {
                Ok(Event::BountyRemoved(bounty_id))
            },
        }
    }

    // ---- work entries ----

    /// What a call of `announce_work_entry` returns.
    pub open spec fn announce_work_entry_result(
        self,
        now: u64,
        origin: RawOrigin,
        member_id: u64,
        staking_account_id: Option<u64>,
        bounty_id: u64,
    ) -> Result<Event, Error> {
        if self.member_account(origin, member_id) is Err {
            Err(Error::BadOrigin)
        } else if !self.bounties.contains_key(bounty_id) {
            Err(Error::BountyDoesntExist)
        } else {
            let bounty = self.bounties[bounty_id];
            let stake = bounty.creation_params.entrant_stake;
            if !stage_allows(stage_of(bounty, now), BountyAction::AnnounceWorkEntry) {
                Err(Error::InvalidBountyStage)
            } else if stake > 0 && staking_account_id is None {
                Err(Error::NoStakingAccountProvided)
            } else if stake > 0 && self.balances[AccountId::External(staking_account_id->Some_0)]
                < stake {
                Err(Error::InsufficientBalanceForStake)
            } else if stake > 0 && self.has_conflicting_stake(
                bounty_id,
                member_id,
                staking_account_id->Some_0,
            ) {
                Err(Error::ConflictingStakes)
            } else if bounty.active_work_entry_count >= self.max_work_entry_limit {
                Err(Error::MaxWorkEntryLimitReached)
            } else if stake > 0 && !has_room(
                self.balances,
                AccountId::Bounty(bounty_id),
                stake as nat,
            ) {
                Err(Error::Overflow)
            } else {
                Ok(
                    Event::WorkEntryAnnounced(
                        (self.entry_count + 1) as u64,
                        bounty_id,
                        member_id,
                        staking_account_id,
                    ),
                )
            }
        }
    }

    /// The state after the member announced a work entry at block `now` under the next entry id,
    /// with the bounty's entrant stake moved from the staking account into the escrow. A rejected
    /// call changes nothing.
    pub open spec fn announce_work_entry(
        self,
        now: u64,
        origin: RawOrigin,
        member_id: u64,
        staking_account_id: Option<u64>,
        bounty_id: u64,
    ) -> State {
        if self.announce_work_entry_result(now, origin, member_id, staking_account_id, bounty_id)
            is Ok {
            let bounty = self.bounties[bounty_id];
            let stake = bounty.creation_params.entrant_stake;
            let entry_id = (self.entry_count + 1) as u64;
            State {
                entry_count: entry_id,
                entries: self.entries.push(
                    WorkEntry {
                        id: entry_id,
                        bounty_id,
                        member_id,
                        staking_account_id,
                        staked_amount: stake,
                        submitted_at: now,
                    },
                ),
                bounties: self.bounties.insert(
                    bounty_id,
                    Bounty {
                        active_work_entry_count: (bounty.active_work_entry_count + 1) as u32,
                        ..bounty
                    },
                ),
                balances: if stake > 0 {
                    moved(
                        self.balances,
                        AccountId::External(staking_account_id->Some_0),
                        AccountId::Bounty(bounty_id),
                        stake as nat,
                    )
                } else {
                    self.balances
                },
                ..self
            }
        } else {
            self
        }
    }

    /// What a call of `withdraw_work_entry` returns.
    pub open spec fn withdraw_work_entry_result(
        self,
        now: u64,
        origin: RawOrigin,
        member_id: u64,
        bounty_id: u64,
        entry_id: u64,
    ) -> Result<Event, Error> {
        if self.member_account(origin, member_id) is Err {
            Err(Error::BadOrigin)
        } else if !self.bounties.contains_key(bounty_id) {
            Err(Error::BountyDoesntExist)
        } else if !stage_allows(
            stage_of(self.bounties[bounty_id], now),
            BountyAction::WithdrawWorkEntry,
        ) {
            Err(Error::InvalidBountyStage)
        } else if !self.has_entry(bounty_id, entry_id, member_id) {
            Err(Error::WorkEntryDoesntExist)
        } else {
            let at = self.entry_position(bounty_id, entry_id, member_id);
            match self.entries[at].staking_account_id {
                Some(account_id) if !has_room(
                    self.balances,
                    AccountId::External(account_id),
                    self.stake_refund(at, now),
                ) => Err(Error::Overflow),
                _ => Ok(Event::WorkEntryWithdrawn(bounty_id, entry_id, member_id)),
            }
        }
    }

    /// What the member gets back of the stake of the entry at position `at`.
    pub open spec fn stake_refund(self, at: int, now: u64) -> nat {
        let entry = self.entries[at];
        let work_period = self.bounties[entry.bounty_id].creation_params.work_period;
        match entry.staking_account_id {
            Some(_) => (entry.staked_amount - stake_slash(
                entry.staked_amount,
                blocks_between(entry.submitted_at, now),
                work_period,
            )) as nat,
            None => 0,
        }
    }

    /// The state after the member withdrew its work entry at block `now`: the entry is erased, the
    /// part of its stake that the elapsed work period has not cost goes back to the staking
    /// account, and the rest is forfeited to the bounty. A rejected call changes nothing.
    pub open spec fn withdraw_work_entry(
        self,
        now: u64,
        origin: RawOrigin,
        member_id: u64,
        bounty_id: u64,
        entry_id: u64,
    ) -> State {
        if self.withdraw_work_entry_result(now, origin, member_id, bounty_id, entry_id) is Ok {
            let at = self.entry_position(bounty_id, entry_id, member_id);
            let entry = self.entries[at];
            let bounty = self.bounties[bounty_id];
            let refund = self.stake_refund(at, now);
            State {
                entries: self.entries.remove(at),
                bounties: self.bounties.insert(
                    bounty_id,
                    Bounty {
                        active_work_entry_count: (bounty.active_work_entry_count - 1) as u32,
                        forfeited_stake: (bounty.forfeited_stake + entry.staked_amount
                            - refund) as u64,
                        ..bounty
                    },
                ),
                balances: match entry.staking_account_id {
                    Some(account_id) => moved(
                        self.balances,
                        AccountId::Bounty(bounty_id),
                        AccountId::External(account_id),
                        refund,
                    ),
                    None => self.balances,
                },
                ..self
            }
        } else {
            self
        }
    }
}

/// A call to the engine, with what the caller hands in.
pub enum Call {
    CreateBounty { origin: RawOrigin, params: BountyCreationParameters },
    CancelBounty { origin: RawOrigin, creator: BountyActor, bounty_id: u64 },
    VetoBounty { origin: RawOrigin, bounty_id: u64 },
    FundBounty { origin: RawOrigin, funder: BountyActor, bounty_id: u64, amount: u64 },
    WithdrawFunding { origin: RawOrigin, funder: BountyActor, bounty_id: u64 },
    WithdrawCreatorFunding { origin: RawOrigin, creator: BountyActor, bounty_id: u64 },
    AnnounceWorkEntry {
        origin: RawOrigin,
        member_id: u64,
        staking_account_id: Option<u64>,
        bounty_id: u64,
    },
    WithdrawWorkEntry { origin: RawOrigin, member_id: u64, bounty_id: u64, entry_id: u64 },
}

impl State {
    /// What the call returns when it is made at block `now`.
    pub open spec fn outcome(self, now: u64, call: Call) -> Result<Event, Error> {
        match call {
            Call::CreateBounty { origin, params } => self.create_bounty_result(now, origin, params),
            Call::CancelBounty { origin, creator, bounty_id } => self.cancel_bounty_result(
                now,
                origin,
                creator,
                bounty_id,
            ),
            Call::VetoBounty { origin, bounty_id } => self.veto_bounty_result(
                now,
                origin,
                bounty_id,
            ),
            Call::FundBounty { origin, funder, bounty_id, amount } => self.fund_bounty_result(
                now,
                origin,
                funder,
                bounty_id,
                amount,
            ),
            Call::WithdrawFunding { origin, funder, bounty_id } => self.withdraw_funding_result(
                now,
                origin,
                funder,
                bounty_id,
            ),
            Call::WithdrawCreatorFunding {
                origin,
                creator,
                bounty_id,
            } => self.withdraw_creator_funding_result(now, origin, creator, bounty_id),
            Call::AnnounceWorkEntry {
                origin,
                member_id,
                staking_account_id,
                bounty_id,
            } => self.announce_work_entry_result(
                now,
                origin,
                member_id,
                staking_account_id,
                bounty_id,
            ),
            Call::WithdrawWorkEntry {
                origin,
                member_id,
                bounty_id,
                entry_id,
            } => self.withdraw_work_entry_result(now, origin, member_id, bounty_id, entry_id),
        }
    }

    /// The state that the call leaves when it is made at block `now`.
    pub open spec fn apply(self, now: u64, call: Call) -> State {
        match call {
            Call::CreateBounty { origin, params } => self.create_bounty(now, origin, params),
            Call::CancelBounty { origin, creator, bounty_id } => self.cancel_bounty(
                now,
                origin,
                creator,
                bounty_id,
            ),
            Call::VetoBounty { origin, bounty_id } => self.veto_bounty(now, origin, bounty_id),
            Call::FundBounty { origin, funder, bounty_id, amount } => self.fund_bounty(
                now,
                origin,
                funder,
                bounty_id,
                amount,
            ),
            Call::WithdrawFunding { origin, funder, bounty_id } => self.withdraw_funding(
                now,
                origin,
                funder,
                bounty_id,
            ),
            Call::WithdrawCreatorFunding {
                origin,
                creator,
                bounty_id,
            } => self.withdraw_creator_funding(now, origin, creator, bounty_id),
            Call::AnnounceWorkEntry {
                origin,
                member_id,
                staking_account_id,
                bounty_id,
            } => self.announce_work_entry(now, origin, member_id, staking_account_id, bounty_id),
            Call::WithdrawWorkEntry {
                origin,
                member_id,
                bounty_id,
                entry_id,
            } => self.withdraw_work_entry(now, origin, member_id, bounty_id, entry_id),
        }
    }

    /// Neither counter is at its end: there is an id left for the next bounty and for the next
    /// work entry.
    pub open spec fn within_limits(self) -> bool {
        &&& self.bounty_count < u64::MAX
        &&& self.entry_count < u64::MAX
    }
}

/// Whether a bounty may go from the milestone `from` to the milestone `to` in one call.
pub open spec fn milestone_step(from: BountyMilestone, to: BountyMilestone) -> bool {
    ||| from == to
    ||| from is Created && !(to is Created)
    ||| from is BountyMaxFundingReached && to is CreatorFundsWithdrawn
    ||| from is Canceled && to is CreatorFundsWithdrawn
}

} // verus!
