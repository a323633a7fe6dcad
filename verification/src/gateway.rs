//! The gateway engine: service providers, and the channels in which gateways lock the balance
//! that pays for their service.

pub mod laws;
pub mod state;

use crate::authorization::Registry;
use crate::common::{ensure_signed, RawOrigin};
use crate::gateway::state::{decimal_digits, serialized, verification_message, Settlement, State};
use crate::ledger::{AccountId, Ledger, LedgerError};
use std::collections::HashMap;
use vstd::prelude::*;

verus! {

broadcast use vstd::std_specs::hash::group_hash_axioms;

/// Indicates different types of Service Provider. There is only Generic for now.
#[derive(Clone, Copy, PartialEq, Eq, Structural, Debug)]
pub enum ServiceProviderKind {
    Generic,
}

impl Default for ServiceProviderKind {
    fn default() -> (kind: ServiceProviderKind)
        ensures
            kind == ServiceProviderKind::Generic,
    {
        Self::Generic
    }
}

/// WorkerId + Working Group of a Service provider.
#[derive(Default, Clone, Copy, PartialEq, Eq, Structural, Debug)]
pub struct ServiceProviderWorkerId {
    pub worker_id: u64,
    pub group: ServiceProviderKind,
}

/// Request for payment.
#[derive(Default, Clone, PartialEq, Eq, Debug)]
pub struct PaymentRequestSignature {
    pub payment_signature_request_id: u64,
    pub new_total_service_level_requested_paid_for: u32,
    pub service_provider_service_report_commitment: Vec<u8>,
}

/// Representation of a single service provider.
#[derive(Default, Clone, Copy, PartialEq, Eq, Structural, Debug)]
pub struct ServiceProvider {
    pub service_provider_worker_id: ServiceProviderWorkerId,
    pub platform_service_price: u64,
    pub refund_period: u64,
    pub provider_price: u64,
    pub minimum_locked_balance: u64,
}

/// State of a service channel.
#[derive(Clone, Copy, PartialEq, Eq, Structural, Debug)]
pub enum ServiceChannelState {
    Pending,
    Operational,
    RefundInitiated(u64),
}

impl Default for ServiceChannelState {
    fn default() -> (state: ServiceChannelState)
        ensures
            state == ServiceChannelState::Pending,
    {
        Self::Pending
    }
}

/// Representation of a channel between a Service Provider and a gateway.
#[derive(Default, Clone, Copy, PartialEq, Eq, Debug)]
pub struct ServiceChannel {
    pub gateway_worker_id: u64,
    pub gateway_worker_fallback_account: u64,
    pub service_provider_id: u64,
    pub service_provider_fallback_account: Option<u64>,
    pub locked_balance: u64,
    pub refund_delay_period: u64,
    pub platform_price: u64,
    pub provider_price: u64,
    pub state: ServiceChannelState,
}

/// What checks a signature over a message against the account that is to have signed it.
pub trait Verify<AccountId> {
    fn verify(&self, msg: &[u8], signer: &AccountId) -> bool;
}

/// Why a call was rejected.
#[derive(Clone, Copy, PartialEq, Eq, Structural, Debug)]
pub enum Error {
    BadOrigin,
    CurrentLeadNotSet,
    IsNotLeadAccount,
    WorkerDoesNotExist,
    SignerIsNotWorkerRoleAccount,
    InsufficientBalance,
    ChannelNotExists,
    ServiceProviderNotExist,
    ServiceChannelNotForProvider,
    ServiceChannelAlreadyConfirmed,
    SignatureError,
    InsufficientBalanceForSettling,
    NoServiceProviderFallbackAccount,
    ChannelNotOperational,
    ChannelRefundNotStarted,
    RefundDelayOnGoing,
    ServiceTermsUpdateEmpty,
    ServicePriceIsZero,
    RefundPeriodIsZero,
    /// The account that is to be paid cannot hold the amount beside what it holds.
    Overflow,
}

/// What a successful call reports.
#[derive(Clone, Copy, PartialEq, Eq, Structural, Debug)]
pub enum Event {
    /// A service provider was created: the worker of the service provider, the refund period,
    /// the price of a unit of service, the platform's price of a unit of service, and the id
    /// of the service provider.
    ServiceProviderCreated(ServiceProviderWorkerId, u64, u64, u64, u64),
    /// A channel was created: gateway worker, service provider, locked balance, account of the
    /// gateway worker.
    ServiceChannelCreated(u64, u64, u64, u64),
    /// A channel was confirmed by the Service Provider.
    ServiceChannelConfirmed(u64),
    /// A channel has been settled.
    ChannelSettled(u64),
    /// A channel has been canceled.
    ChannelCanceled(u64),
    /// A gateway initiated a refund request.
    ChannelRefundInitiated(u64),
}

/// The decimal digits of `n` as ASCII bytes.
pub fn decimal_bytes(n: u64) -> (digits: Vec<u8>)
    ensures
        digits@ == decimal_digits(n as nat),
    decreases n,
{
    if n < 10 {
        let mut digits: Vec<u8> = Vec::new();
        digits.push(48 + n as u8);
        assert(digits@ =~= seq![(48 + n) as u8]);
        digits
    } else {
        let mut digits = decimal_bytes(n / 10);
        digits.push(48 + (n % 10) as u8);
        digits
    }
}

impl PaymentRequestSignature {
    /// The bytes of the request: its id and its service level as decimal digits, then the
    /// commitment.
    pub fn serialize(&self) -> (bytes: Vec<u8>)
        ensures
            bytes@ == serialized(
                self.payment_signature_request_id,
                self.new_total_service_level_requested_paid_for,
                self.service_provider_service_report_commitment@,
            ),
    {
        let mut bytes = decimal_bytes(self.payment_signature_request_id);
        let level = decimal_bytes(self.new_total_service_level_requested_paid_for as u64);
        bytes.extend_from_slice(level.as_slice());
        bytes.extend_from_slice(self.service_provider_service_report_commitment.as_slice());
        bytes
    }

    /// The bytes that the gateway signs for this request on the channel.
    pub fn get_verification_message(&self, channel_id: &u64) -> (bytes: Vec<u8>)
        ensures
            bytes@ == verification_message(
                self.payment_signature_request_id,
                self.new_total_service_level_requested_paid_for,
                self.service_provider_service_report_commitment@,
                *channel_id,
            ),
    {
        let mut bytes = self.serialize();
        let channel = decimal_bytes(*channel_id);
        bytes.extend_from_slice(channel.as_slice());
        bytes
    }
}

/// The gateway engine: service providers, the channels between them and the gateways, the
/// two working groups that the callers are checked against, and the ledger.
pub struct Module {
    next_service_provider: u64,
    next_service_channel_id: u64,
    service_provider_by_id: HashMap<u64, ServiceProvider>,
    service_channel_by_id: HashMap<u64, ServiceChannel>,
    service_channel_platform_price: u64,
    provider_price: u64,
    refund_period: u64,
    minimum_locked_balance: u64,
    gateway_lead: Option<u64>,
    gateway_workers: Registry,
    service_provider_workers: Registry,
    ledger: Ledger,
}

impl View for Module {
    type V = State;

    closed spec fn view(&self) -> State {
        State {
            next_service_provider: self.next_service_provider,
            next_service_channel_id: self.next_service_channel_id,
            service_provider_by_id: self.service_provider_by_id@,
            service_channel_by_id: self.service_channel_by_id@,
            service_channel_platform_price: self.service_channel_platform_price,
            provider_price: self.provider_price,
            refund_period: self.refund_period,
            minimum_locked_balance: self.minimum_locked_balance,
            gateway_lead: self.gateway_lead,
            gateway_workers: self.gateway_workers@,
            service_provider_workers: self.service_provider_workers@,
            balances: self.ledger@,
            total_issuance: self.ledger.total_issuance(),
        }
    }
}

impl Module {
    /// The engine's own invariant.
    pub closed spec fn wf(&self) -> bool {
        self.ledger.wf()
    }

    /// What `wf` gives to a caller: no account holds more than was issued in all.
    pub proof fn lemma_balance_bounded(&self, who: AccountId)
        requires
            self.wf(),
        ensures
            self@.balances[who] <= self@.total_issuance,
            self@.balances[who] <= u64::MAX,
    {
        self.ledger.lemma_balance_bounded(who);
    }

    /// An engine without providers, channels or workers, with the defaults that a new service
    /// provider takes.
    pub fn new(
        service_channel_platform_price: u64,
        provider_price: u64,
        refund_period: u64,
        minimum_locked_balance: u64,
    ) -> (module: Module)
        ensures
            module.wf(),
            module@.next_service_provider == 0,
            module@.next_service_channel_id == 0,
            module@.service_provider_by_id == Map::<u64, ServiceProvider>::empty(),
            module@.service_channel_by_id == Map::<u64, ServiceChannel>::empty(),
            module@.service_channel_platform_price == service_channel_platform_price,
            module@.provider_price == provider_price,
            module@.refund_period == refund_period,
            module@.minimum_locked_balance == minimum_locked_balance,
            module@.gateway_lead == None::<u64>,
            module@.gateway_workers == Map::<u64, u64>::empty(),
            module@.service_provider_workers == Map::<u64, u64>::empty(),
            module@.total_issuance == 0,
            forall|who: AccountId| module@.balances[who] == 0,
    {
        Module {
            next_service_provider: 0,
            next_service_channel_id: 0,
            service_provider_by_id: HashMap::new(),
            service_channel_by_id: HashMap::new(),
            service_channel_platform_price,
            provider_price,
            refund_period,
            minimum_locked_balance,
            gateway_lead: None,
            gateway_workers: Registry::new(),
            service_provider_workers: Registry::new(),
            ledger: Ledger::new(),
        }
    }

    // ---- the working groups and the accounts ----

    /// Makes `account_id` the role account of the lead of the gateway working group.
    pub fn set_gateway_lead(&mut self, account_id: u64)
        requires
            old(self).wf(),
        ensures
            final(self).wf(),
            final(self)@ == (State { gateway_lead: Some(account_id), ..old(self)@ }),
    {
        self.gateway_lead = Some(account_id);
    }

    /// Makes `account_id` the role account of a worker of the gateway working group.
    pub fn set_gateway_worker(&mut self, worker_id: u64, account_id: u64)
        requires
            old(self).wf(),
        ensures
            final(self).wf(),
            final(self)@ == (State {
                gateway_workers: old(self)@.gateway_workers.insert(worker_id, account_id),
                ..old(self)@
            }),
    {
        self.gateway_workers.bind(worker_id, account_id);
    }

    /// Makes `account_id` the role account of a worker of the service provider working group.
    pub fn set_service_provider_worker(&mut self, worker_id: u64, account_id: u64)
        requires
            old(self).wf(),
        ensures
            final(self).wf(),
            final(self)@ == (State {
                service_provider_workers: old(self)@.service_provider_workers.insert(
                    worker_id,
                    account_id,
                ),
                ..old(self)@
            }),
    {
        self.service_provider_workers.bind(worker_id, account_id);
    }

    /// Creates `amount` in an outside account, unless the account cannot hold it.
    pub fn increase_account_balance(
        &mut self,
        account_id: u64,
        amount: u64,
    ) -> (res: Result<(), LedgerError>)
        requires
            old(self).wf(),
        ensures
            final(self).wf(),
            res.is_ok() <==> old(self)@.balances[AccountId::External(account_id)] + amount
                <= u64::MAX,
            res.is_ok() ==> final(self)@ == (State {
                balances: crate::ledger::credit(
                    old(self)@.balances,
                    AccountId::External(account_id),
                    amount as nat,
                ),
                total_issuance: (old(self)@.total_issuance + amount) as nat,
                ..old(self)@
            }),
            res.is_err() ==> final(self)@ == old(self)@,
    {
        self.ledger.deposit(AccountId::External(account_id), amount)
    }

    /// What the account holds.
    pub fn free_balance(&self, who: AccountId) -> (balance: u64)
        requires
            self.wf(),
        ensures
            balance == self@.balances[who],
    {
        self.ledger.free_balance(who)
    }

    /// The service provider with this id, if there is one.
    pub fn service_provider_by_id(
        &self,
        service_provider_id: u64,
    ) -> (provider: Option<ServiceProvider>)
        ensures
            provider == if self@.service_provider_by_id.contains_key(service_provider_id) {
                Some(self@.service_provider_by_id[service_provider_id])
            } else {
                None
            },
    {
        match self.service_provider_by_id.get(&service_provider_id) {
            Some(provider) => Some(*provider),
            None => None,
        }
    }

    /// The service channel with this id, if there is one.
    pub fn service_channel_by_id(
        &self,
        channel_id: u64,
    ) -> (service_channel: Option<ServiceChannel>)
        ensures
            service_channel == if self@.service_channel_by_id.contains_key(channel_id) {
                Some(self@.service_channel_by_id[channel_id])
            } else {
                None
            },
    {
        match self.service_channel_by_id.get(&channel_id) {
            Some(service_channel) => Some(*service_channel),
            None => None,
        }
    }

    fn ensure_origin_is_active_leader(&self, origin: RawOrigin) -> (res: Result<(), Error>)
        ensures
            res == self@.ensure_origin_is_active_leader(origin),
    {
        match ensure_signed(origin) {
            Err(_) => Err(Error::BadOrigin),
            Ok(account_id) => match self.gateway_lead {
                None => Err(Error::CurrentLeadNotSet),
                Some(lead) => if lead == account_id {
                    Ok(())
                } else {
                    Err(Error::IsNotLeadAccount)
                },
            },
        }
    }

    fn ensure_worker_signed(
        workers: &Registry,
        origin: RawOrigin,
        worker_id: u64,
    ) -> (res: Result<u64, Error>)
        ensures
            res == State::ensure_worker_signed(workers@, origin, worker_id),
    {
        match ensure_signed(origin) {
            Err(_) => Err(Error::BadOrigin),
            Ok(account_id) => match workers.account_of(worker_id) {
                None => Err(Error::WorkerDoesNotExist),
                Some(role_account) => if role_account != account_id {
                    Err(Error::SignerIsNotWorkerRoleAccount)
                } else {
                    Ok(account_id)
                },
            },
        }
    }

    /// The channel, where the caller is its service provider.
    pub fn ensure_service_provider_caller(
        &self,
        origin: RawOrigin,
        channel_id: u64,
    ) -> (res: Result<ServiceChannel, Error>)
        ensures
            res == self@.ensure_service_provider_caller(origin, channel_id),
    {
        let service_channel = match self.service_channel_by_id(channel_id) {
            Some(service_channel) => service_channel,
            None => {
                return Err(Error::ChannelNotExists);
            },
        };
        match service_channel.service_provider_fallback_account {
            Some(account_id) => {
                let caller_id = match ensure_signed(origin) {
                    Ok(caller_id) => caller_id,
                    Err(_) => {
                        return Err(Error::BadOrigin);
                    },
                };
                if account_id == caller_id {
                    return Ok(service_channel);
                }
            },
            None => {},
        }
        let worker_id = match self.service_provider_by_id(service_channel.service_provider_id) {
            Some(provider) => provider.service_provider_worker_id.worker_id,
            None => 0,
        };
        match Self::ensure_worker_signed(&self.service_provider_workers, origin, worker_id) {
            Ok(_) => Ok(service_channel),
            Err(e) => Err(e),
        }
    }

    /// The channel, where the caller is its gateway.
    pub fn ensure_gateway_caller(
        &self,
        origin: RawOrigin,
        channel_id: u64,
    ) -> (res: Result<ServiceChannel, Error>)
        ensures
            res == self@.ensure_gateway_caller(origin, channel_id),
    {
        let service_channel = match self.service_channel_by_id(channel_id) {
            Some(service_channel) => service_channel,
            None => {
                return Err(Error::ChannelNotExists);
            },
        };
        let caller_id = match ensure_signed(origin) {
            Ok(caller_id) => caller_id,
            Err(_) => {
                return Err(Error::BadOrigin);
            },
        };
        if caller_id == service_channel.gateway_worker_fallback_account {
            return Ok(service_channel);
        }
        match Self::ensure_worker_signed(
            &self.gateway_workers,
            origin,
            service_channel.gateway_worker_id,
        ) {
            Ok(_) => Ok(service_channel),
            Err(e) => Err(e),
        }
    }

    fn get_next_service_provider_id(&mut self) -> (id: u64)
        ensures
            id == old(self)@.next_service_provider,
            final(self).ledger == old(self).ledger,
            final(self)@ == (State {
                next_service_provider: crate::common::saturate(id + 1),
                ..old(self)@
            }),
    {
        let id = self.next_service_provider;
        self.next_service_provider = id.saturating_add(1);
        id
    }

    fn get_next_channel_id(&mut self) -> (id: u64)
        ensures
            id == old(self)@.next_service_channel_id,
            final(self).ledger == old(self).ledger,
            final(self)@ == (State {
                next_service_channel_id: crate::common::saturate(id + 1),
                ..old(self)@
            }),
    {
        let id = self.next_service_channel_id;
        self.next_service_channel_id = id.saturating_add(1);
        id
    }

    /// The account that holds the locked balance of the channel.
    pub fn get_service_channel_account(service_channel_id: u64) -> (account: AccountId)
        ensures
            account == AccountId::ServiceChannel(service_channel_id),
    {
        AccountId::ServiceChannel(service_channel_id)
    }

    // Moves the balance that the gateway locks into the account of the channel.
    fn reserve_channel_balance(
        &mut self,
        gateway_account_id: &u64,
        service_channel_id: u64,
        reserved_balance: u64,
    ) -> (res: Result<(), Error>)
        requires
            old(self).wf(),
        ensures
            final(self).wf(),
            res == match crate::ledger::transfer_outcome(
                old(self)@.balances,
                AccountId::External(*gateway_account_id),
                AccountId::ServiceChannel(service_channel_id),
                reserved_balance,
            ) {
                Ok(()) => Ok::<(), Error>(()),
                Err(LedgerError::InsufficientBalance) => Err::<(), Error>(
                    Error::InsufficientBalance,
                ),
                Err(LedgerError::Overflow) => Err::<(), Error>(Error::Overflow),
            },
            res.is_ok() ==> final(self)@ == (State {
                balances: crate::ledger::moved(
                    old(self)@.balances,
                    AccountId::External(*gateway_account_id),
                    AccountId::ServiceChannel(service_channel_id),
                    reserved_balance as nat,
                ),
                ..old(self)@
            }),
            res.is_err() ==> final(self)@ == old(self)@,
    {
        match self.ledger.transfer(
            AccountId::External(*gateway_account_id),
            Self::get_service_channel_account(service_channel_id),
            reserved_balance,
        ) {
            Ok(()) => Ok(()),
            Err(LedgerError::InsufficientBalance) => Err(Error::InsufficientBalance),
            Err(LedgerError::Overflow) => Err(Error::Overflow),
        }
    }

    // Burns the platform's part, pays the service provider and hands the rest to the gateway,
    // where the settlement can be made.
    fn hand_out(
        &mut self,
        service_provider_account_id: Option<u64>,
        gateway_account_id: &u64,
        service_channel_id: u64,
        payoff_balance: u64,
        burn_balance: u64,
        refund_balance: u64,
    )
        requires
            old(self).wf(),
            old(self)@.can_settle(
                service_channel_id,
                Settlement {
                    service_provider_account_id,
                    gateway_account_id: *gateway_account_id,
                    payoff_balance,
                    burn_balance,
                    refund_balance,
                },
            ),
        ensures
            final(self).wf(),
            final(self)@ == old(self)@.settle_channel_balance(
                service_channel_id,
                Settlement {
                    service_provider_account_id,
                    gateway_account_id: *gateway_account_id,
                    payoff_balance,
                    burn_balance,
                    refund_balance,
                },
            ),
    {
        let account = Self::get_service_channel_account(service_channel_id);
        self.ledger.slash(account, burn_balance);
        match service_provider_account_id {
            Some(provider) => {
                self.ledger.transfer_held(account, AccountId::External(provider), payoff_balance);
            },
            None => {},
        }
        self.ledger.transfer_held(
            account,
            AccountId::External(*gateway_account_id),
            refund_balance,
        );
    }

    // Burns the platform's part, pays the service provider and hands the rest to the gateway,
    // or does nothing where the settlement cannot be made.
    fn settle_channel_balance(
        &mut self,
        service_provider_account_id: Option<u64>,
        gateway_account_id: &u64,
        service_channel_id: u64,
        payoff_balance: u64,
        burn_balance: u64,
        refund_balance: u64,
    ) -> (res: Result<(), Error>)
        requires
            old(self).wf(),
        ensures
            final(self).wf(),
            ({
                let settlement = Settlement {
                    service_provider_account_id,
                    gateway_account_id: *gateway_account_id,
                    payoff_balance,
                    burn_balance,
                    refund_balance,
                };
                &&& res == old(self)@.settlement_outcome(service_channel_id, settlement)
                &&& res.is_ok() ==> final(self)@ == old(self)@.settle_channel_balance(
                    service_channel_id,
                    settlement,
                )
                &&& res.is_err() ==> final(self)@ == old(self)@
            }),
    {
        let held = self.ledger.free_balance(Self::get_service_channel_account(service_channel_id));
        let paid_out: u128 = burn_balance as u128 + (match service_provider_account_id {
            Some(_) => payoff_balance as u128,
            None => 0,
        }) + refund_balance as u128;
        if paid_out > held as u128 {
            return Err(Error::InsufficientBalance);
        }
        let gateway_holds = self.ledger.free_balance(AccountId::External(*gateway_account_id));
        let gateway_will_hold: u128 = match service_provider_account_id {
            Some(provider) => {
                let provider_holds = self.ledger.free_balance(AccountId::External(provider));
                if payoff_balance > u64::MAX - provider_holds {
                    return Err(Error::Overflow);
                }
                if provider == *gateway_account_id {
                    gateway_holds as u128 + payoff_balance as u128
                } else {
                    gateway_holds as u128
                }
            },
            None => gateway_holds as u128,
        };
        if gateway_will_hold + refund_balance as u128 > u64::MAX as u128 {
            return Err(Error::Overflow);
        }
        self.hand_out(
            service_provider_account_id,
            gateway_account_id,
            service_channel_id,
            payoff_balance,
            burn_balance,
            refund_balance,
        );
        Ok(())
    }
}

impl Module {
    /// Creates a new service provider choosing one in the corresponding working group. Needs
    /// to be a lead on the gateway working group to call it.
    pub fn create_service_provider(
        &mut self,
        origin: RawOrigin,
        service_provider_worker_id: ServiceProviderWorkerId,
    ) -> (res: Result<Event, Error>)
        requires
            old(self).wf(),
        ensures
            final(self).wf(),
            res == old(self)@.create_service_provider_result(origin, service_provider_worker_id),
            final(self)@ == old(self)@.create_service_provider(origin, service_provider_worker_id),
    {
        match self.ensure_origin_is_active_leader(origin) {
            Ok(()) => {},
            Err(e) => {
                return Err(e);
            },
        }
        if !self.service_provider_workers.contains(service_provider_worker_id.worker_id) {
            return Err(Error::WorkerDoesNotExist);
        }
        // == MUTATION SAFE ==
        let service_provider_id = self.get_next_service_provider_id();

        let service_provider = ServiceProvider {
            service_provider_worker_id,
            platform_service_price: self.service_channel_platform_price,
            provider_price: self.provider_price,
            refund_period: self.refund_period,
            minimum_locked_balance: self.minimum_locked_balance,
        };

        self.service_provider_by_id.insert(service_provider_id, service_provider);

        Ok(
            Event::ServiceProviderCreated(
                service_provider_worker_id,
                self.refund_period,
                self.provider_price,
                self.service_channel_platform_price,
                service_provider_id,
            ),
        )
    }

    /// Used by gateway to propose a channel for a service provider. Must be confirmed by the
    /// Service Provider using `confirm_channel`.
    pub fn create_channel(
        &mut self,
        origin: RawOrigin,
        gateway_worker_id: u64,
        service_provider_id: u64,
        locked_balance: u64,
    ) -> (res: Result<Event, Error>)
        requires
            old(self).wf(),
        ensures
            final(self).wf(),
            res == old(self)@.create_channel_result(
                origin,
                gateway_worker_id,
                service_provider_id,
                locked_balance,
            ),
            final(self)@ == old(self)@.create_channel(
                origin,
                gateway_worker_id,
                service_provider_id,
                locked_balance,
            ),
    {
        let account_id = match Self::ensure_worker_signed(
            &self.gateway_workers,
            origin,
            gateway_worker_id,
        ) {
            Ok(account_id) => account_id,
            Err(e) => {
                return Err(e);
            },
        };
        let service_channel_provider = match self.service_provider_by_id(service_provider_id) {
            Some(provider) => provider,
            None => {
                return Err(Error::ServiceProviderNotExist);
            },
        };
        if self.ledger.free_balance(AccountId::External(account_id)) < locked_balance {
            return Err(Error::InsufficientBalance);
        }
        if locked_balance < service_channel_provider.minimum_locked_balance {
            return Err(Error::InsufficientBalance);
        }
        if !self.ledger.has_room(
            Self::get_service_channel_account(self.next_service_channel_id),
            locked_balance,
        ) {
            return Err(Error::Overflow);
        }
        // == MUTATION SAFE ==
        let channel_id = self.get_next_channel_id();

        match self.reserve_channel_balance(&account_id, channel_id, locked_balance) {
            Ok(()) => {},
            Err(e) => {
                return Err(e);
            },
        }
        let service_channel = ServiceChannel {
            gateway_worker_id,
            service_provider_id,
            locked_balance,
            refund_delay_period: service_channel_provider.refund_period,
            platform_price: service_channel_provider.platform_service_price,
            provider_price: service_channel_provider.provider_price,
            state: ServiceChannelState::Pending,
            gateway_worker_fallback_account: account_id,
            service_provider_fallback_account: None,
        };

        self.service_channel_by_id.insert(channel_id, service_channel);
        Ok(
            Event::ServiceChannelCreated(
                gateway_worker_id,
                service_provider_id,
                locked_balance,
                account_id,
            ),
        )
    }

    /// Service provider confirms channel proposed by gateway worker.
    pub fn confirm_channel(
        &mut self,
        origin: RawOrigin,
        channel_id: u64,
    ) -> (res: Result<Event, Error>)
        requires
            old(self).wf(),
        ensures
            final(self).wf(),
            res == old(self)@.confirm_channel_result(origin, channel_id),
            final(self)@ == old(self)@.confirm_channel(origin, channel_id),
    {
        let account_id = match ensure_signed(origin) {
            Ok(account_id) => account_id,
            Err(_) => {
                return Err(Error::BadOrigin);
            },
        };
        let service_channel = match self.ensure_service_provider_caller(origin, channel_id) {
            Ok(service_channel) => service_channel,
            Err(e) => {
                return Err(e);
            },
        };
        if service_channel.state != ServiceChannelState::Pending {
            return Err(Error::ServiceChannelAlreadyConfirmed);
        }
        // == MUTATION SAFE ==
        self.service_channel_by_id.insert(
            channel_id,
            ServiceChannel {
                state: ServiceChannelState::Operational,
                service_provider_fallback_account: Some(account_id),
                ..service_channel
            },
        );

        Ok(Event::ServiceChannelConfirmed(channel_id))
    }

    /// Called by a service provider to get paid by its service rendered, with what the check
    /// of the gateway's signature gave. This closes the channel and a new one needs to be
    /// open to continue.
    pub fn settle_channel_verified(
        &mut self,
        origin: RawOrigin,
        channel_id: u64,
        service_level: u32,
        signature_valid: bool,
    ) -> (res: Result<Event, Error>)
        requires
            old(self).wf(),
        ensures
            final(self).wf(),
            res == old(self)@.settle_channel_result(
                origin,
                channel_id,
                service_level,
                signature_valid,
            ),
            final(self)@ == old(self)@.settle_channel(
                origin,
                channel_id,
                service_level,
                signature_valid,
            ),
    {
        let service_channel = match self.ensure_service_provider_caller(origin, channel_id) {
            Ok(service_channel) => service_channel,
            Err(e) => {
                return Err(e);
            },
        };
        if !signature_valid {
            return Err(Error::SignatureError);
        }
        if service_channel.state != ServiceChannelState::Operational {
            return Err(Error::ChannelNotOperational);
        }
        assert(service_channel.provider_price * service_level <= 0xffff_ffff_ffff_ffff
            * 0xffff_ffff) by (nonlinear_arith)
            requires
                service_channel.provider_price <= 0xffff_ffff_ffff_ffff,
                service_level <= 0xffff_ffff,
        ;
        assert(service_channel.platform_price * service_level <= 0xffff_ffff_ffff_ffff
            * 0xffff_ffff) by (nonlinear_arith)
            requires
                service_channel.platform_price <= 0xffff_ffff_ffff_ffff,
                service_level <= 0xffff_ffff,
        ;
        let payoff_balance: u128 = service_channel.provider_price as u128 * service_level as u128;
        let burn_balance: u128 = service_channel.platform_price as u128 * service_level as u128;
        // Should be always true
        if (service_channel.locked_balance as u128) < payoff_balance + burn_balance {
            return Err(Error::InsufficientBalanceForSettling);
        }
        let refund_balance = service_channel.locked_balance as u128 - (payoff_balance
            + burn_balance);
        // Should be always true
        if service_channel.locked_balance != self.ledger.free_balance(
            Self::get_service_channel_account(channel_id),
        ) {
            return Err(Error::InsufficientBalanceForSettling);
        }
        // Should be always true since channel is operational
        let service_provider_account = match service_channel.service_provider_fallback_account {
            Some(fallback_account) => fallback_account,
            None => {
                return Err(Error::NoServiceProviderFallbackAccount);
            },
        };

        // == MUTATION SAFE ==
        let gateway_account_id = service_channel.gateway_worker_fallback_account;

        match self.settle_channel_balance(
            Some(service_provider_account),
            &gateway_account_id,
            channel_id,
            payoff_balance as u64,
            burn_balance as u64,
            refund_balance as u64,
        ) {
            Ok(()) => {},
            Err(e) => {
                return Err(e);
            },
        }

        self.service_channel_by_id.remove(&channel_id);
        Ok(Event::ChannelSettled(channel_id))
    }

    /// Called by a service provider to get paid by its service rendered. The signature is
    /// checked over the request's verification message against the account of the gateway;
    /// the call then goes on as `settle_channel_verified` does with what the check gave.
    pub fn settle_channel<S: Verify<u64>>(
        &mut self,
        origin: RawOrigin,
        channel_id: u64,
        request_payment_signature: PaymentRequestSignature,
        signature: S,
    ) -> (res: Result<Event, Error>)
        requires
            old(self).wf(),
        ensures
            final(self).wf(),
            old(self)@.ensure_service_provider_caller(origin, channel_id) matches Err(e) ==> res
                == Err::<Event, Error>(e) && final(self)@ == old(self)@,
            exists|signature_valid: bool|
                res == #[trigger] old(self)@.settle_channel_result(
                    origin,
                    channel_id,
                    request_payment_signature.new_total_service_level_requested_paid_for,
                    signature_valid,
                ) && final(self)@ == old(self)@.settle_channel(
                    origin,
                    channel_id,
                    request_payment_signature.new_total_service_level_requested_paid_for,
                    signature_valid,
                ),
    {
        let service_channel = match self.ensure_service_provider_caller(origin, channel_id) {
            Ok(service_channel) => service_channel,
            Err(e) => {
                assert(Err::<Event, Error>(e) == old(self)@.settle_channel_result(
                    origin,
                    channel_id,
                    request_payment_signature.new_total_service_level_requested_paid_for,
                    true,
                ));
                return Err(e);
            },
        };
        let verification_message = request_payment_signature.get_verification_message(
            &channel_id,
        );
        let signature_valid = signature.verify(
            verification_message.as_slice(),
            &service_channel.gateway_worker_fallback_account,
        );
        self.settle_channel_verified(
            origin,
            channel_id,
            request_payment_signature.new_total_service_level_requested_paid_for,
            signature_valid,
        )
    }

    /// Cancel a channel before it's confirmed.
    pub fn cancel_channel(
        &mut self,
        origin: RawOrigin,
        channel_id: u64,
    ) -> (res: Result<Event, Error>)
        requires
            old(self).wf(),
        ensures
            final(self).wf(),
            res == old(self)@.cancel_channel_result(origin, channel_id),
            final(self)@ == old(self)@.cancel_channel(origin, channel_id),
    {
        let service_channel = match self.ensure_gateway_caller(origin, channel_id) {
            Ok(service_channel) => service_channel,
            Err(e) => {
                return Err(e);
            },
        };
        if service_channel.state != ServiceChannelState::Pending {
            return Err(Error::ServiceChannelAlreadyConfirmed);
        }
        // == MUTATION SAFE ==
        match self.settle_channel_balance(
            None,
            &service_channel.gateway_worker_fallback_account,
            channel_id,
            0,
            0,
            service_channel.locked_balance,
        ) {
            Ok(()) => {},
            Err(e) => {
                return Err(e);
            },
        }

        self.service_channel_by_id.remove(&channel_id);
        Ok(Event::ChannelCanceled(channel_id))
    }

    /// Initiate a channel refund by a gateway; the service provider can settle the channel
    /// before the refund is completed.
    pub fn initiate_refund_channel(
        &mut self,
        now: u64,
        origin: RawOrigin,
        channel_id: u64,
    ) -> (res: Result<Event, Error>)
        requires
            old(self).wf(),
        ensures
            final(self).wf(),
            res == old(self)@.initiate_refund_channel_result(origin, channel_id),
            final(self)@ == old(self)@.initiate_refund_channel(now, origin, channel_id),
    {
        let service_channel = match self.ensure_gateway_caller(origin, channel_id) {
            Ok(service_channel) => service_channel,
            Err(e) => {
                return Err(e);
            },
        };
        if service_channel.state != ServiceChannelState::Operational {
            return Err(Error::ChannelNotOperational);
        }
        // == MUTATION SAFE ==
        self.service_channel_by_id.insert(
            channel_id,
            ServiceChannel { state: ServiceChannelState::RefundInitiated(now), ..service_channel },
        );

        Ok(Event::ChannelRefundInitiated(channel_id))
    }

    /// Hands the locked balance back to the gateway once the refund delay is over.
    pub fn complete_refund_channel(
        &mut self,
        now: u64,
        origin: RawOrigin,
        channel_id: u64,
    ) -> (res: Result<(), Error>)
        requires
            old(self).wf(),
        ensures
            final(self).wf(),
            res == old(self)@.complete_refund_channel_result(now, origin, channel_id),
            final(self)@ == old(self)@.complete_refund_channel(now, origin, channel_id),
    {
        let service_channel = match self.ensure_gateway_caller(origin, channel_id) {
            Ok(service_channel) => service_channel,
            Err(e) => {
                return Err(e);
            },
        };
        let refund_start = match service_channel.state {
            ServiceChannelState::RefundInitiated(refund_start) => refund_start,
            _ => {
                return Err(Error::ChannelRefundNotStarted);
            },
        };
        let waited = if now >= refund_start {
            now - refund_start
        } else {
            0
        };
        if waited < service_channel.refund_delay_period {
            return Err(Error::RefundDelayOnGoing);
        }
        // == MUTATION SAFE ==
        match self.settle_channel_balance(
            None,
            &service_channel.gateway_worker_fallback_account,
            channel_id,
            0,
            0,
            service_channel.locked_balance,
        ) {
            Ok(()) => {},
            Err(e) => {
                return Err(e);
            },
        }
        self.service_channel_by_id.remove(&channel_id);
        Ok(())
    }

    /// Moves more of the caller's balance into the account of the channel.
    pub fn increase_channel_capital(
        &mut self,
        origin: RawOrigin,
        channel_id: u64,
        increased_amount: u64,
    ) -> (res: Result<(), Error>)
        requires
            old(self).wf(),
        ensures
            final(self).wf(),
            res == old(self)@.increase_channel_capital_result(origin, channel_id, increased_amount),
            final(self)@ == old(self)@.increase_channel_capital(
                origin,
                channel_id,
                increased_amount,
            ),
    {
        let account_id = match ensure_signed(origin) {
            Ok(account_id) => account_id,
            Err(_) => {
                return Err(Error::BadOrigin);
            },
        };
        match self.ensure_gateway_caller(origin, channel_id) {
            Ok(_) => {},
            Err(e) => {
                return Err(e);
            },
        }
        if self.ledger.free_balance(AccountId::External(account_id)) < increased_amount {
            return Err(Error::InsufficientBalance);
        }
        // == MUTATION SAFE ==
        match self.reserve_channel_balance(&account_id, channel_id, increased_amount) {
            Ok(()) => Ok(()),
            Err(e) => Err(e),
        }
    }

    /// Makes another account the gateway's fallback account of the channel.
    pub fn update_gateway_fallback_account(
        &mut self,
        origin: RawOrigin,
        channel_id: u64,
        new_fallback_account: u64,
    ) -> (res: Result<(), Error>)
        requires
            old(self).wf(),
        ensures
            final(self).wf(),
            res == match old(self)@.ensure_gateway_caller(origin, channel_id) {
                Ok(_) => Ok::<(), Error>(()),
                Err(e) => Err::<(), Error>(e),
            },
            final(self)@ == old(self)@.update_gateway_fallback_account(
                origin,
                channel_id,
                new_fallback_account,
            ),
    {
        let service_channel = match self.ensure_gateway_caller(origin, channel_id) {
            Ok(service_channel) => service_channel,
            Err(e) => {
                return Err(e);
            },
        };

        // == MUTATION SAFE ==
        self.service_channel_by_id.insert(
            channel_id,
            ServiceChannel {
                gateway_worker_fallback_account: new_fallback_account,
                ..service_channel
            },
        );
        Ok(())
    }

    /// Makes another account the service provider's fallback account of the channel.
    pub fn update_service_provider_fallback_account(
        &mut self,
        origin: RawOrigin,
        channel_id: u64,
        new_fallback_account: u64,
    ) -> (res: Result<(), Error>)
        requires
            old(self).wf(),
        ensures
            final(self).wf(),
            res == match old(self)@.ensure_service_provider_caller(origin, channel_id) {
                Ok(_) => Ok::<(), Error>(()),
                Err(e) => Err::<(), Error>(e),
            },
            final(self)@ == old(self)@.update_service_provider_fallback_account(
                origin,
                channel_id,
                new_fallback_account,
            ),
    {
        let service_channel = match self.ensure_service_provider_caller(origin, channel_id) {
            Ok(service_channel) => service_channel,
            Err(e) => {
                return Err(e);
            },
        };

        // == MUTATION SAFE ==
        self.service_channel_by_id.insert(
            channel_id,
            ServiceChannel {
                service_provider_fallback_account: Some(new_fallback_account),
                ..service_channel
            },
        );
        Ok(())
    }

    /// Hands a part of what the account of the channel holds back to the gateway. The account
    /// must keep something.
    pub fn decrease_channel_capital(
        &mut self,
        origin: RawOrigin,
        channel_id: u64,
        decreased_amount: u64,
    ) -> (res: Result<(), Error>)
        requires
            old(self).wf(),
        ensures
            final(self).wf(),
            res == old(self)@.decrease_channel_capital_result(origin, channel_id, decreased_amount),
            final(self)@ == old(self)@.decrease_channel_capital(
                origin,
                channel_id,
                decreased_amount,
            ),
    {
        let service_channel = match self.ensure_service_provider_caller(origin, channel_id) {
            Ok(service_channel) => service_channel,
            Err(e) => {
                return Err(e);
            },
        };
        let service_channel_account_id = Self::get_service_channel_account(channel_id);
        if self.ledger.free_balance(service_channel_account_id) <= decreased_amount {
            return Err(Error::InsufficientBalance);
        }
        if !self.ledger.has_room(
            AccountId::External(service_channel.gateway_worker_fallback_account),
            decreased_amount,
        ) {
            return Err(Error::Overflow);
        }
        // == MUTATION SAFE ==
        self.ledger.transfer_held(
            service_channel_account_id,
            AccountId::External(service_channel.gateway_worker_fallback_account),
            decreased_amount,
        );
        Ok(())
    }

    /// Changes the platform's price and the refund period of a service provider.
    pub fn update_service_provider_terms(
        &mut self,
        origin: RawOrigin,
        service_provider_id: u64,
        platform_service_price: Option<u64>,
        refund_period: Option<u64>,
    ) -> (res: Result<(), Error>)
        requires
            old(self).wf(),
        ensures
            final(self).wf(),
            res == old(self)@.update_service_provider_terms_result(
                origin,
                service_provider_id,
                platform_service_price,
                refund_period,
            ),
            final(self)@ == old(self)@.update_service_provider_terms(
                origin,
                service_provider_id,
                platform_service_price,
                refund_period,
            ),
    {
        match self.ensure_origin_is_active_leader(origin) {
            Ok(()) => {},
            Err(e) => {
                return Err(e);
            },
        }
        let provider = match self.service_provider_by_id(service_provider_id) {
            Some(provider) => provider,
            None => {
                return Err(Error::ServiceProviderNotExist);
            },
        };
        if platform_service_price.is_none() && refund_period.is_none() {
            return Err(Error::ServiceTermsUpdateEmpty);
        }
        match platform_service_price {
            Some(price) => {
                if price == 0 {
                    return Err(Error::ServicePriceIsZero);
                }
            },
            None => {},
        }
        match refund_period {
            Some(period) => {
                if period == 0 {
                    return Err(Error::RefundPeriodIsZero);
                }
            },
            None => {},
        }
        // == MUTATION SAFE ==
        self.service_provider_by_id.insert(
            service_provider_id,
            ServiceProvider {
                refund_period: match refund_period {
                    Some(period) => period,
                    None => provider.refund_period,
                },
                platform_service_price: match platform_service_price {
                    Some(price) => price,
                    None => provider.platform_service_price,
                },
                ..provider
            },
        );
        Ok(())
    }

    /// Removes a service provider.
    pub fn remove_service_provider(
        &mut self,
        origin: RawOrigin,
        service_provider_id: u64,
    ) -> (res: Result<(), Error>)
        requires
            old(self).wf(),
        ensures
            final(self).wf(),
            res == old(self)@.remove_service_provider_result(origin, service_provider_id),
            final(self)@ == old(self)@.remove_service_provider(origin, service_provider_id),
    {
        match self.ensure_origin_is_active_leader(origin) {
            Ok(()) => {},
            Err(e) => {
                return Err(e);
            },
        }
        if !self.service_provider_by_id.contains_key(&service_provider_id) {
            return Err(Error::ServiceProviderNotExist);
        }
        // == MUTATION SAFE ==
        self.service_provider_by_id.remove(&service_provider_id);
        Ok(())
    }
}

} // verus!
