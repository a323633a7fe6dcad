//! The model of the gateway engine: its state, and for every call what the call returns and
//! the state that it leaves.

use crate::authorization::account_of;
use crate::common::{signer_of, RawOrigin};
use crate::gateway::{
    Error, Event, ServiceChannel, ServiceChannelState, ServiceProvider, ServiceProviderWorkerId,
};
use crate::ledger::{credit, debit, has_room, moved, AccountId};
use vstd::prelude::*;

verus! {

/// The decimal digits of `n` as ASCII bytes, the most significant first.
pub open spec fn decimal_digits(n: nat) -> Seq<u8>
    decreases n,
{
    if n < 10 {
        seq![(48 + n) as u8]
    } else {
        decimal_digits(n / 10).push((48 + n % 10) as u8)
    }
}

/// The bytes of a request for payment: the request's id and the service level as decimal
/// digits, then the commitment.
pub open spec fn serialized(
    payment_signature_request_id: u64,
    new_total_service_level_requested_paid_for: u32,
    service_provider_service_report_commitment: Seq<u8>,
) -> Seq<u8> {
    decimal_digits(payment_signature_request_id as nat) + decimal_digits(
        new_total_service_level_requested_paid_for as nat,
    ) + service_provider_service_report_commitment
}

/// The bytes that the gateway signs for a request on a channel: the request's bytes, then the
/// channel's id as decimal digits.
pub open spec fn verification_message(
    payment_signature_request_id: u64,
    new_total_service_level_requested_paid_for: u32,
    service_provider_service_report_commitment: Seq<u8>,
    channel_id: u64,
) -> Seq<u8> {
    serialized(
        payment_signature_request_id,
        new_total_service_level_requested_paid_for,
        service_provider_service_report_commitment,
    ) + decimal_digits(channel_id as nat)
}

/// Everything the gateway engine keeps between calls.
pub struct State {
    /// Next identifier for any service provider.
    pub next_service_provider: u64,
    /// Next identifier for service channel.
    pub next_service_channel_id: u64,
    pub service_provider_by_id: Map<u64, ServiceProvider>,
    pub service_channel_by_id: Map<u64, ServiceChannel>,
    /// Default share of a service channel price that goes to the platform (is burned).
    pub service_channel_platform_price: u64,
    /// Default price of a unit of service for a service channel.
    pub provider_price: u64,
    /// Default delay of a refund.
    pub refund_period: u64,
    /// Default minimum locked balance for a channel of a given service provider.
    pub minimum_locked_balance: u64,
    /// The role account of the lead of the gateway working group, where it has a lead.
    pub gateway_lead: Option<u64>,
    /// The role account of each worker of the gateway working group.
    pub gateway_workers: Map<u64, u64>,
    /// The role account of each worker of the service provider working group.
    pub service_provider_workers: Map<u64, u64>,
    pub balances: Map<AccountId, nat>,
    pub total_issuance: nat,
}

/// What a channel is settled with: the account of the service provider where it is paid, the
/// account of the gateway, and the three amounts.
pub struct Settlement {
    pub service_provider_account_id: Option<u64>,
    pub gateway_account_id: u64,
    pub payoff_balance: u64,
    pub burn_balance: u64,
    pub refund_balance: u64,
}

impl State {
    // ---- who is calling ----

    /// Whether the caller is the lead of the gateway working group, and why not where it is not.
    pub open spec fn ensure_origin_is_active_leader(self, origin: RawOrigin) -> Result<(), Error> {
        match signer_of(origin) {
            None => Err(Error::BadOrigin),
            Some(account_id) => match self.gateway_lead {
                None => Err(Error::CurrentLeadNotSet),
                Some(lead) => if lead == account_id {
                    Ok(())
                } else {
                    Err(Error::IsNotLeadAccount)
                },
            },
        }
    }

    /// The role account of the worker, where it signed the call.
    pub open spec fn ensure_worker_signed(
        workers: Map<u64, u64>,
        origin: RawOrigin,
        worker_id: u64,
    ) -> Result<u64, Error> {
        match signer_of(origin) {
            None => Err(Error::BadOrigin),
            Some(account_id) => match account_of(workers, worker_id) {
                None => Err(Error::WorkerDoesNotExist),
                Some(role_account) => if role_account != account_id {
                    Err(Error::SignerIsNotWorkerRoleAccount)
                } else {
                    Ok(account_id)
                },
            },
        }
    }

    /// The channel, where the caller is its service provider: the fallback account of the
    /// provider, or the provider's worker.
    pub open spec fn ensure_service_provider_caller(
        self,
        origin: RawOrigin,
        channel_id: u64,
    ) -> Result<ServiceChannel, Error> {
        if !self.service_channel_by_id.contains_key(channel_id) {
            Err(Error::ChannelNotExists)
        } else {
            let service_channel = self.service_channel_by_id[channel_id];
            if service_channel.service_provider_fallback_account is Some && signer_of(origin)
                is None {
                Err(Error::BadOrigin)
            } else if service_channel.service_provider_fallback_account is Some
                && service_channel.service_provider_fallback_account == signer_of(origin) {
                Ok(service_channel)
            } else {
                match Self::ensure_worker_signed(
                    self.service_provider_workers,
                    origin,
                    self.service_provider(
                        service_channel.service_provider_id,
                    ).service_provider_worker_id.worker_id,
                ) {
                    Ok(_) => Ok(service_channel),
                    Err(e) => Err(e),
                }
            }
        }
    }

    /// The channel, where the caller is its gateway: the fallback account of the gateway, or
    /// the gateway's worker.
    pub open spec fn ensure_gateway_caller(
        self,
        origin: RawOrigin,
        channel_id: u64,
    ) -> Result<ServiceChannel, Error> {
        if !self.service_channel_by_id.contains_key(channel_id) {
            Err(Error::ChannelNotExists)
        } else {
            let service_channel = self.service_channel_by_id[channel_id];
            match signer_of(origin) {
                None => Err(Error::BadOrigin),
                Some(account_id) => if account_id
                    == service_channel.gateway_worker_fallback_account {
                    Ok(service_channel)
                } else {
                    match Self::ensure_worker_signed(
                        self.gateway_workers,
                        origin,
                        service_channel.gateway_worker_id,
                    ) {
                        Ok(_) => Ok(service_channel),
                        Err(e) => Err(e),
                    }
                },
            }
        }
    }

    /// The provider with this id, or the empty provider where there is none.
    pub open spec fn service_provider(self, service_provider_id: u64) -> ServiceProvider {
        if self.service_provider_by_id.contains_key(service_provider_id) {
            self.service_provider_by_id[service_provider_id]
        } else {
            ServiceProvider {
                service_provider_worker_id: ServiceProviderWorkerId {
                    worker_id: 0,
                    group: crate::gateway::ServiceProviderKind::Generic,
                },
                platform_service_price: 0,
                refund_period: 0,
                provider_price: 0,
                minimum_locked_balance: 0,
            }
        }
    }

    /// What the account of the channel holds.
    pub open spec fn channel_balance(self, channel_id: u64) -> nat {
        self.balances[AccountId::ServiceChannel(channel_id)]
    }

    /// The state with the channel stored under the id.
    pub open spec fn with_channel(self, channel_id: u64, service_channel: ServiceChannel) -> State {
        State {
            service_channel_by_id: self.service_channel_by_id.insert(channel_id, service_channel),
            ..self
        }
    }

    /// The state with the channel of this id erased.
    pub open spec fn without_channel(self, channel_id: u64) -> State {
        State { service_channel_by_id: self.service_channel_by_id.remove(channel_id), ..self }
    }

    // ---- the channel's money ----

    /// Whether the settlement can be made, and why not where it cannot: the channel's account
    /// must hold all that is handed out, and the accounts of the service provider and of the
    /// gateway must have room for what they are paid, one after the other.
    pub open spec fn settlement_outcome(self, channel_id: u64, settlement: Settlement) -> Result<
        (),
        Error,
    > {
        let paid = match settlement.service_provider_account_id {
            Some(provider) => credit(
                self.balances,
                AccountId::External(provider),
                settlement.payoff_balance as nat,
            ),
            None => self.balances,
        };
        if settlement.burn_balance + (if settlement.service_provider_account_id is Some {
            settlement.payoff_balance as int
        } else {
            0
        }) + settlement.refund_balance > self.channel_balance(channel_id) {
            Err(Error::InsufficientBalance)
        } else if settlement.service_provider_account_id matches Some(provider) && !has_room(
            self.balances,
            AccountId::External(provider),
            settlement.payoff_balance as nat,
        ) {
            Err(Error::Overflow)
        } else if !has_room(
            paid,
            AccountId::External(settlement.gateway_account_id),
            settlement.refund_balance as nat,
        ) {
            Err(Error::Overflow)
        } else {
            Ok(())
        }
    }

    /// Whether the settlement can be made.
    pub open spec fn can_settle(self, channel_id: u64, settlement: Settlement) -> bool {
        self.settlement_outcome(channel_id, settlement) is Ok
    }

    /// The state after the platform's part was burned, the service provider paid and the rest
    /// handed back to the gateway.
    pub open spec fn settle_channel_balance(
        self,
        channel_id: u64,
        settlement: Settlement,
    ) -> State {
        let account = AccountId::ServiceChannel(channel_id);
        let burned = debit(self.balances, account, settlement.burn_balance as nat);
        let paid = match settlement.service_provider_account_id {
            Some(provider) => moved(
                burned,
                account,
                AccountId::External(provider),
                settlement.payoff_balance as nat,
            ),
            None => burned,
        };
        State {
            balances: moved(
                paid,
                account,
                AccountId::External(settlement.gateway_account_id),
                settlement.refund_balance as nat,
            ),
            total_issuance: (self.total_issuance - settlement.burn_balance) as nat,
            ..self
        }
    }

    // ---- service providers ----

    /// What a call of `create_service_provider` returns.
    pub open spec fn create_service_provider_result(
        self,
        origin: RawOrigin,
        service_provider_worker_id: ServiceProviderWorkerId,
    ) -> Result<Event, Error> {
        if self.ensure_origin_is_active_leader(origin) is Err {
            Err(self.ensure_origin_is_active_leader(origin)->Err_0)
        } else if !self.service_provider_workers.contains_key(
            service_provider_worker_id.worker_id,
        ) {
            Err(Error::WorkerDoesNotExist)
        } else {
            Ok(
                Event::ServiceProviderCreated(
                    service_provider_worker_id,
                    self.refund_period,
                    self.provider_price,
                    self.service_channel_platform_price,
                    self.next_service_provider,
                ),
            )
        }
    }

    /// The state after the lead registered the worker as a service provider under the next id, on
    /// the terms that hold by default. A rejected call changes nothing.
    pub open spec fn create_service_provider(
        self,
        origin: RawOrigin,
        service_provider_worker_id: ServiceProviderWorkerId,
    ) -> State {
        if self.create_service_provider_result(origin, service_provider_worker_id) is Ok {
            State {
                next_service_provider: crate::common::saturate(self.next_service_provider + 1),
                service_provider_by_id: self.service_provider_by_id.insert(
                    self.next_service_provider,
                    ServiceProvider {
                        service_provider_worker_id,
                        platform_service_price: self.service_channel_platform_price,
                        provider_price: self.provider_price,
                        refund_period: self.refund_period,
                        minimum_locked_balance: self.minimum_locked_balance,
                    },
                ),
                ..self
            }
        } else {
            self
        }
    }

    /// What a call of `update_service_provider_terms` returns.
    pub open spec fn update_service_provider_terms_result(
        self,
        origin: RawOrigin,
        service_provider_id: u64,
        platform_service_price: Option<u64>,
        refund_period: Option<u64>,
    ) -> Result<(), Error> {
        if self.ensure_origin_is_active_leader(origin) is Err {
            Err(self.ensure_origin_is_active_leader(origin)->Err_0)
        } else if !self.service_provider_by_id.contains_key(service_provider_id) {
            Err(Error::ServiceProviderNotExist)
        } else if platform_service_price is None && refund_period is None {
            Err(Error::ServiceTermsUpdateEmpty)
        } else if platform_service_price == Some(0u64) {
            Err(Error::ServicePriceIsZero)
        } else if refund_period == Some(0u64) {
            Err(Error::RefundPeriodIsZero)
        } else {
            Ok(())
        }
    }

    /// The state after the lead changed the terms of the service provider: each of the price and
    /// the refund period that is given replaces the one it had. A rejected call changes nothing.
    pub open spec fn update_service_provider_terms(
        self,
        origin: RawOrigin,
        service_provider_id: u64,
        platform_service_price: Option<u64>,
        refund_period: Option<u64>,
    ) -> State {
        if self.update_service_provider_terms_result(
            origin,
            service_provider_id,
            platform_service_price,
            refund_period,
        ) is Ok {
            let provider = self.service_provider_by_id[service_provider_id];
            State {
                service_provider_by_id: self.service_provider_by_id.insert(
                    service_provider_id,
                    ServiceProvider {
                        refund_period: match refund_period {
                            Some(period) => period,
                            None => provider.refund_period,
                        },
                        platform_service_price: match platform_service_price {
                            Some(price) => price,
                            None => provider.platform_service_price,
                        },
                        ..provider
                    },
                ),
                ..self
            }
        } else {
            self
        }
    }

    /// What a call of `remove_service_provider` returns.
    pub open spec fn remove_service_provider_result(
        self,
        origin: RawOrigin,
        service_provider_id: u64,
    ) -> Result<(), Error> {
        if self.ensure_origin_is_active_leader(origin) is Err {
            Err(self.ensure_origin_is_active_leader(origin)->Err_0)
        } else if !self.service_provider_by_id.contains_key(service_provider_id) {
            Err(Error::ServiceProviderNotExist)
        } else {
            Ok(())
        }
    }

    /// The state after the lead erased the service provider. A rejected call changes nothing.
    pub open spec fn remove_service_provider(
        self,
        origin: RawOrigin,
        service_provider_id: u64,
    ) -> State {
        if self.remove_service_provider_result(origin, service_provider_id) is Ok {
            State {
                service_provider_by_id: self.service_provider_by_id.remove(service_provider_id),
                ..self
            }
        } else {
            self
        }
    }

    // ---- channels ----

    /// What a call of `create_channel` returns.
    pub open spec fn create_channel_result(
        self,
        origin: RawOrigin,
        gateway_worker_id: u64,
        service_provider_id: u64,
        locked_balance: u64,
    ) -> Result<Event, Error> {
        match Self::ensure_worker_signed(self.gateway_workers, origin, gateway_worker_id) {
            Err(e) => Err(e),
            Ok(account_id) => {
                if !self.service_provider_by_id.contains_key(service_provider_id) {
                    Err(Error::ServiceProviderNotExist)
                } else if self.balances[AccountId::External(account_id)] < locked_balance {
                    Err(Error::InsufficientBalance)
                } else if locked_balance
                    < self.service_provider_by_id[service_provider_id].minimum_locked_balance {
                    Err(Error::InsufficientBalance)
                } else if !has_room(
                    self.balances,
                    AccountId::ServiceChannel(self.next_service_channel_id),
                    locked_balance as nat,
                ) {
                    Err(Error::Overflow)
                } else {
                    Ok(
                        Event::ServiceChannelCreated(
                            gateway_worker_id,
                            service_provider_id,
                            locked_balance,
                            account_id,
                        ),
                    )
                }
            },
        }
    }

    /// The state after the gateway opened a channel to the service provider under the next id: the
    /// channel is pending, takes the provider's terms, and holds `locked_balance` from the
    /// signer's account in an account of its own. A rejected call changes nothing.
    pub open spec fn create_channel(
        self,
        origin: RawOrigin,
        gateway_worker_id: u64,
        service_provider_id: u64,
        locked_balance: u64,
    ) -> State {
        if self.create_channel_result(
            origin,
            gateway_worker_id,
            service_provider_id,
            locked_balance,
        ) is Ok {
            let account_id = signer_of(origin)->Some_0;
            let provider = self.service_provider_by_id[service_provider_id];
            let channel_id = self.next_service_channel_id;
            State {
                next_service_channel_id: crate::common::saturate(channel_id + 1),
                service_channel_by_id: self.service_channel_by_id.insert(
                    channel_id,
                    ServiceChannel {
                        gateway_worker_id,
                        gateway_worker_fallback_account: account_id,
                        service_provider_id,
                        service_provider_fallback_account: None,
                        locked_balance,
                        refund_delay_period: provider.refund_period,
                        platform_price: provider.platform_service_price,
                        provider_price: provider.provider_price,
                        state: ServiceChannelState::Pending,
                    },
                ),
                balances: moved(
                    self.balances,
                    AccountId::External(account_id),
                    AccountId::ServiceChannel(channel_id),
                    locked_balance as nat,
                ),
                ..self
            }
        } else {
            self
        }
    }

    /// What a call of `confirm_channel` returns.
    pub open spec fn confirm_channel_result(
        self,
        origin: RawOrigin,
        channel_id: u64,
    ) -> Result<Event, Error> {
        match signer_of(origin) {
            None => Err(Error::BadOrigin),
            Some(_) => match self.ensure_service_provider_caller(origin, channel_id) {
                Err(e) => Err(e),
                Ok(service_channel) => if service_channel.state != ServiceChannelState::Pending {
                    Err(Error::ServiceChannelAlreadyConfirmed)
                } else {
                    Ok(Event::ServiceChannelConfirmed(channel_id))
                },
            },
        }
    }

    /// The state after the service provider confirmed the channel: it is operational, and the
    /// signer's account is the provider's fallback account. A rejected call changes nothing.
    pub open spec fn confirm_channel(self, origin: RawOrigin, channel_id: u64) -> State {
        if self.confirm_channel_result(origin, channel_id) is Ok {
            self.with_channel(
                channel_id,
                ServiceChannel {
                    state: ServiceChannelState::Operational,
                    service_provider_fallback_account: signer_of(origin),
                    ..self.service_channel_by_id[channel_id]
                },
            )
        } else {
            self
        }
    }

    /// What settling a request pays out of a channel, where the channel's locked balance
    /// covers it.
    pub open spec fn settlement_of(
        service_channel: ServiceChannel,
        service_level: u32,
    ) -> Option<Settlement> {
        let payoff = service_channel.provider_price * service_level;
        let burn = service_channel.platform_price * service_level;
        if service_channel.locked_balance >= payoff + burn
            && service_channel.service_provider_fallback_account is Some {
            Some(
                Settlement {
                    service_provider_account_id: service_channel.service_provider_fallback_account,
                    gateway_account_id: service_channel.gateway_worker_fallback_account,
                    payoff_balance: payoff as u64,
                    burn_balance: burn as u64,
                    refund_balance: (service_channel.locked_balance - (payoff + burn)) as u64,
                },
            )
        } else {
            None
        }
    }

    /// What a call of `settle_channel` returns.
    pub open spec fn settle_channel_result(
        self,
        origin: RawOrigin,
        channel_id: u64,
        service_level: u32,
        signature_valid: bool,
    ) -> Result<Event, Error> {
        match self.ensure_service_provider_caller(origin, channel_id) {
            Err(e) => Err(e),
            Ok(service_channel) => {
                let payoff = service_channel.provider_price * service_level;
                let burn = service_channel.platform_price * service_level;
                if !signature_valid {
                    Err(Error::SignatureError)
                } else if service_channel.state != ServiceChannelState::Operational {
                    Err(Error::ChannelNotOperational)
                } else if service_channel.locked_balance < payoff + burn {
                    Err(Error::InsufficientBalanceForSettling)
                } else if service_channel.locked_balance != self.channel_balance(channel_id) {
                    Err(Error::InsufficientBalanceForSettling)
                } else if service_channel.service_provider_fallback_account is None {
                    Err(Error::NoServiceProviderFallbackAccount)
                } else {
                    match self.settlement_outcome(
                        channel_id,
                        Self::settlement_of(service_channel, service_level)->Some_0,
                    ) {
                        Err(e) => Err(e),
                        Ok(()) => Ok(Event::ChannelSettled(channel_id)),
                    }
                }
            },
        }
    }

    /// The state after the channel was settled for `service_level` units of service: the provider
    /// is paid, the platform's price is burned, the rest goes back to the gateway, and the channel
    /// is erased. A rejected call changes nothing.
    pub open spec fn settle_channel(
        self,
        origin: RawOrigin,
        channel_id: u64,
        service_level: u32,
        signature_valid: bool,
    ) -> State {
        if self.settle_channel_result(origin, channel_id, service_level, signature_valid) is Ok {
            self.settle_channel_balance(
                channel_id,
                Self::settlement_of(self.service_channel_by_id[channel_id], service_level)->Some_0,
            ).without_channel(channel_id)
        } else {
            self
        }
    }

    /// The settlement that hands all of the locked balance back to the gateway.
    pub open spec fn refund_of(service_channel: ServiceChannel) -> Settlement {
        Settlement {
            service_provider_account_id: None,
            gateway_account_id: service_channel.gateway_worker_fallback_account,
            payoff_balance: 0,
            burn_balance: 0,
            refund_balance: service_channel.locked_balance,
        }
    }

    /// What a call of `cancel_channel` returns.
    pub open spec fn cancel_channel_result(
        self,
        origin: RawOrigin,
        channel_id: u64,
    ) -> Result<Event, Error> {
        match self.ensure_gateway_caller(origin, channel_id) {
            Err(e) => Err(e),
            Ok(service_channel) => if service_channel.state != ServiceChannelState::Pending {
                Err(Error::ServiceChannelAlreadyConfirmed)
            } else {
                match self.settlement_outcome(channel_id, Self::refund_of(service_channel)) {
                    Err(e) => Err(e),
                    Ok(()) => Ok(Event::ChannelCanceled(channel_id)),
                }
            },
        }
    }

    /// The state after the gateway canceled the pending channel: what was locked goes back to the
    /// gateway, and the channel is erased. A rejected call changes nothing.
    pub open spec fn cancel_channel(self, origin: RawOrigin, channel_id: u64) -> State {
        if self.cancel_channel_result(origin, channel_id) is Ok {
            self.settle_channel_balance(
                channel_id,
                Self::refund_of(self.service_channel_by_id[channel_id]),
            ).without_channel(channel_id)
        } else {
            self
        }
    }

    /// What a call of `initiate_refund_channel` returns.
    pub open spec fn initiate_refund_channel_result(
        self,
        origin: RawOrigin,
        channel_id: u64,
    ) -> Result<Event, Error> {
        match self.ensure_gateway_caller(origin, channel_id) {
            Err(e) => Err(e),
            Ok(service_channel) => if service_channel.state != ServiceChannelState::Operational {
                Err(Error::ChannelNotOperational)
            } else {
                Ok(Event::ChannelRefundInitiated(channel_id))
            },
        }
    }

    /// The state after the gateway asked at block `now` for the refund of the channel, from when
    /// the refund delay runs. A rejected call changes nothing.
    pub open spec fn initiate_refund_channel(
        self,
        now: u64,
        origin: RawOrigin,
        channel_id: u64,
    ) -> State {
        if self.initiate_refund_channel_result(origin, channel_id) is Ok {
            self.with_channel(
                channel_id,
                ServiceChannel {
                    state: ServiceChannelState::RefundInitiated(now),
                    ..self.service_channel_by_id[channel_id]
                },
            )
        } else {
            self
        }
    }

    /// What a call of `complete_refund_channel` returns.
    pub open spec fn complete_refund_channel_result(
        self,
        now: u64,
        origin: RawOrigin,
        channel_id: u64,
    ) -> Result<(), Error> {
        match self.ensure_gateway_caller(origin, channel_id) {
            Err(e) => Err(e),
            Ok(service_channel) => match service_channel.state {
                ServiceChannelState::RefundInitiated(refund_start) => {
                    if crate::common::blocks_between(refund_start, now)
                        < service_channel.refund_delay_period {
                        Err(Error::RefundDelayOnGoing)
                    } else {
                        self.settlement_outcome(channel_id, Self::refund_of(service_channel))
                    }
                },
                _ => Err(Error::ChannelRefundNotStarted),
            },
        }
    }

    /// The state after the gateway completed the refund of the channel: what was locked goes back
    /// to the gateway, and the channel is erased. A rejected call changes nothing.
    pub open spec fn complete_refund_channel(
        self,
        now: u64,
        origin: RawOrigin,
        channel_id: u64,
    ) -> State {
        if self.complete_refund_channel_result(now, origin, channel_id) is Ok {
            self.settle_channel_balance(
                channel_id,
                Self::refund_of(self.service_channel_by_id[channel_id]),
            ).without_channel(channel_id)
        } else {
            self
        }
    }

    /// What a call of `increase_channel_capital` returns.
    pub open spec fn increase_channel_capital_result(
        self,
        origin: RawOrigin,
        channel_id: u64,
        increased_amount: u64,
    ) -> Result<(), Error> {
        match signer_of(origin) {
            None => Err(Error::BadOrigin),
            Some(account_id) => match self.ensure_gateway_caller(origin, channel_id) {
                Err(e) => Err(e),
                Ok(_) => if self.balances[AccountId::External(account_id)] < increased_amount {
                    Err(Error::InsufficientBalance)
                } else if !has_room(
                    self.balances,
                    AccountId::ServiceChannel(channel_id),
                    increased_amount as nat,
                ) {
                    Err(Error::Overflow)
                } else {
                    Ok(())
                },
            },
        }
    }

    /// The state after the gateway moved `increased_amount` from the signer's account into the
    /// account of the channel. A rejected call changes nothing.
    pub open spec fn increase_channel_capital(
        self,
        origin: RawOrigin,
        channel_id: u64,
        increased_amount: u64,
    ) -> State {
        if self.increase_channel_capital_result(origin, channel_id, increased_amount) is Ok {
            State {
                balances: moved(
                    self.balances,
                    AccountId::External(signer_of(origin)->Some_0),
                    AccountId::ServiceChannel(channel_id),
                    increased_amount as nat,
                ),
                ..self
            }
        } else {
            self
        }
    }

    /// What a call of `decrease_channel_capital` returns.
    pub open spec fn decrease_channel_capital_result(
        self,
        origin: RawOrigin,
        channel_id: u64,
        decreased_amount: u64,
    ) -> Result<(), Error> {
        match self.ensure_service_provider_caller(origin, channel_id) {
            Err(e) => Err(e),
            Ok(service_channel) => if self.channel_balance(channel_id) <= decreased_amount {
                Err(Error::InsufficientBalance)
            } else if !has_room(
                self.balances,
                AccountId::External(service_channel.gateway_worker_fallback_account),
                decreased_amount as nat,
            ) {
                Err(Error::Overflow)
            } else {
                Ok(())
            },
        }
    }

    /// The state after the service provider handed `decreased_amount` from the account of the
    /// channel back to the gateway's fallback account. A rejected call changes nothing.
    pub open spec fn decrease_channel_capital(
        self,
        origin: RawOrigin,
        channel_id: u64,
        decreased_amount: u64,
    ) -> State {
        if self.decrease_channel_capital_result(origin, channel_id, decreased_amount) is Ok {
            State {
                balances: moved(
                    self.balances,
                    AccountId::ServiceChannel(channel_id),
                    AccountId::External(
                        self.service_channel_by_id[channel_id].gateway_worker_fallback_account,
                    ),
                    decreased_amount as nat,
                ),
                ..self
            }
        } else {
            self
        }
    }

    /// The state after the gateway made `new_fallback_account` its fallback account of the
    /// channel. A rejected call changes nothing.
    pub open spec fn update_gateway_fallback_account(
        self,
        origin: RawOrigin,
        channel_id: u64,
        new_fallback_account: u64,
    ) -> State {
        match self.ensure_gateway_caller(origin, channel_id) {
            Err(_) => self,
            Ok(service_channel) => self.with_channel(
                channel_id,
                ServiceChannel {
                    gateway_worker_fallback_account: new_fallback_account,
                    ..service_channel
                },
            ),
        }
    }

    /// The state after the service provider made `new_fallback_account` its fallback account of
    /// the channel. A rejected call changes nothing.
    pub open spec fn update_service_provider_fallback_account(
        self,
        origin: RawOrigin,
        channel_id: u64,
        new_fallback_account: u64,
    ) -> State {
        match self.ensure_service_provider_caller(origin, channel_id) {
            Err(_) => self,
            Ok(service_channel) => self.with_channel(
                channel_id,
                ServiceChannel {
                    service_provider_fallback_account: Some(new_fallback_account),
                    ..service_channel
                },
            ),
        }
    }
}

} // verus!
