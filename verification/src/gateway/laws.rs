//! What holds of the gateway engine when a channel is closed.

use crate::common::RawOrigin;
use crate::gateway::state::State;
use crate::gateway::Module;
use crate::ledger::AccountId;
use vstd::prelude::*;

verus! {

/// Between calls every account holds what fits in a balance, and no more than was issued in
/// all.
pub proof fn lemma_balances_are_within_issuance(module: &Module, who: AccountId)
    requires
        module.wf(),
    ensures
        module@.balances[who] <= module@.total_issuance,
        module@.balances[who] <= u64::MAX,
{
    module.lemma_balance_bounded(who);
}

/// Settling a channel hands out exactly what was locked in it: the service provider is paid
/// its price for every unit of service, the platform's price for every unit is destroyed, and
/// the gateway has the rest back. The account of the channel is left empty and the channel is
/// erased.
pub proof fn lemma_settlement_splits_the_locked_balance(
    state: State,
    origin: RawOrigin,
    channel_id: u64,
    service_level: u32,
)
    requires
        state.settle_channel_result(origin, channel_id, service_level, true) is Ok,
        state.channel_balance(channel_id) <= state.total_issuance,
    ensures
        ({
            let service_channel = state.service_channel_by_id[channel_id];
            let settlement = State::settlement_of(service_channel, service_level)->Some_0;
            let after = state.settle_channel(origin, channel_id, service_level, true);
            &&& settlement.payoff_balance == service_channel.provider_price * service_level
            &&& settlement.burn_balance == service_channel.platform_price * service_level
            &&& settlement.payoff_balance + settlement.burn_balance + settlement.refund_balance
                == service_channel.locked_balance
            &&& after.channel_balance(channel_id) == 0
            &&& after.total_issuance == state.total_issuance - settlement.burn_balance
            &&& !after.service_channel_by_id.contains_key(channel_id)
        }),
{
    let service_channel = state.service_channel_by_id[channel_id];
    assert(0 <= service_channel.provider_price * service_level) by (nonlinear_arith);
    assert(0 <= service_channel.platform_price * service_level) by (nonlinear_arith);
}

/// A refund, by a cancellation or at the end of the refund delay, hands the gateway all that
/// was locked, and leaves every other account as it was.
pub proof fn lemma_refund_returns_the_locked_balance(state: State, channel_id: u64)
    requires
        state.service_channel_by_id.contains_key(channel_id),
        state.can_settle(channel_id, State::refund_of(state.service_channel_by_id[channel_id])),
    ensures
        ({
            let service_channel = state.service_channel_by_id[channel_id];
            let gateway = AccountId::External(service_channel.gateway_worker_fallback_account);
            let after = state.settle_channel_balance(
                channel_id,
                State::refund_of(service_channel),
            );
            &&& after.balances[gateway] == state.balances[gateway] + service_channel.locked_balance
            &&& after.channel_balance(channel_id) == state.channel_balance(channel_id)
                - service_channel.locked_balance
            &&& after.total_issuance == state.total_issuance
            &&& forall|who: AccountId|
                who != gateway && who != AccountId::ServiceChannel(channel_id)
                    ==> #[trigger] after.balances[who] == state.balances[who]
        }),
{
}

} // verus!
