//! Properties that hold of every escrow and every request, proved over the
//! outcome functions that the operations' contracts are stated with.
use vstd::arithmetic::div_mod::lemma_div_pos_is_pos;
use vstd::arithmetic::mul::lemma_mul_nonnegative;
use vstd::prelude::*;

use crate::dispute::{freeze_outcome, resolution_outcome};
use crate::error::ContractError;
use crate::escrow::{distribute_outcome, escrow_result_view, fund_outcome, read_outcome};
use crate::milestone::{flag_outcome, status_outcome};
use crate::store::store_after;
use crate::types::{payout_total, Escrow, EscrowView, PayoutView};

verus! {

/// Fee conservation: whenever releasing earnings succeeds, the protocol
/// commission, the platform commission and the provider's share add up to the
/// escrow amount exactly, and none of the three is negative.
pub proof fn lemma_fee_conservation(
    store: Map<Seq<char>, EscrowView>,
    id: Seq<char>,
    signer: Seq<char>,
    recipient: Seq<char>,
    contract_balance: int,
)
    requires
        distribute_outcome(store, id, signer, recipient, contract_balance) is Ok,
    ensures
        ({
            let payouts = distribute_outcome(store, id, signer, recipient, contract_balance)->Ok_0;
            &&& payouts.len() == 3
            &&& payout_total(payouts) == store[id].amount
            &&& forall|i: int| 0 <= i < payouts.len() ==> #[trigger] payouts[i].amount >= 0
        }),
{
    let payouts = distribute_outcome(store, id, signer, recipient, contract_balance)->Ok_0;
    let e = store[id];
    lemma_mul_nonnegative(e.amount, 30);
    lemma_div_pos_is_pos(e.amount * 30, 10000);
    lemma_mul_nonnegative(e.amount, e.platform_fee);
    lemma_div_pos_is_pos(e.amount * e.platform_fee, 100);
    assert(payouts.drop_last().drop_last().drop_last().len() == 0);
    reveal_with_fuel(payout_total, 4);
}

/// Milestone gating: for the release signer of an existing escrow, releasing
/// earnings fails with `NoMileStoneDefined` when there are no milestones,
/// whatever else holds, and with `EscrowNotCompleted` when some milestone is
/// not flagged complete. For every request, success means that every
/// milestone is flagged and there is at least one.
pub proof fn lemma_milestone_gating(
    store: Map<Seq<char>, EscrowView>,
    id: Seq<char>,
    signer: Seq<char>,
    recipient: Seq<char>,
    contract_balance: int,
)
    ensures
        store.contains_key(id) && signer == store[id].release_signer && store[id].milestones.len()
            == 0 ==> distribute_outcome(store, id, signer, recipient, contract_balance) == Err::<
            Seq<PayoutView>,
            ContractError,
        >(ContractError::NoMileStoneDefined),
        store.contains_key(id) && signer == store[id].release_signer && store[id].milestones.len()
            > 0 && !store[id].all_milestones_flagged() ==> distribute_outcome(
            store,
            id,
            signer,
            recipient,
            contract_balance,
        ) == Err::<Seq<PayoutView>, ContractError>(ContractError::EscrowNotCompleted),
        distribute_outcome(store, id, signer, recipient, contract_balance) is Ok ==> {
            &&& store[id].milestones.len() > 0
            &&& store[id].all_milestones_flagged()
        },
{
}

/// Role isolation: only the service provider on file can change a milestone's
/// status, and only the client on file can change its completion flag. Any
/// other caller of an existing escrow is refused with the matching error.
pub proof fn lemma_role_isolation(
    store: Map<Seq<char>, EscrowView>,
    id: Seq<char>,
    index: int,
    status: Seq<char>,
    flag: bool,
    caller: Seq<char>,
)
    ensures
        status_outcome(store, id, index, status, caller) is Ok ==> caller
            == store[id].service_provider,
        flag_outcome(store, id, index, flag, caller) is Ok ==> caller == store[id].client,
        store.contains_key(id) && caller != store[id].service_provider ==> status_outcome(
            store,
            id,
            index,
            status,
            caller,
        ) == Err::<EscrowView, ContractError>(
            ContractError::OnlyServiceProviderChangeMilstoneStatus,
        ),
        store.contains_key(id) && caller != store[id].client ==> flag_outcome(
            store,
            id,
            index,
            flag,
            caller,
        ) == Err::<EscrowView, ContractError>(ContractError::OnlyClientChangeMilstoneFlag),
{
}

/// Dispute freeze: while an escrow is in dispute, no deposit and no release
/// of earnings succeeds. A deposit by the release signer is refused with
/// `EscrowOpenedForDisputeResolution`; a release requested by the release
/// signer of a completed escrow is refused with `InvalidState`.
pub proof fn lemma_dispute_freeze(
    store: Map<Seq<char>, EscrowView>,
    id: Seq<char>,
    amount_to_deposit: int,
    signer_balance: int,
    signer: Seq<char>,
    recipient: Seq<char>,
    contract_balance: int,
)
    requires
        store.contains_key(id),
        store[id].dispute_flag,
    ensures
        fund_outcome(store, id, signer, amount_to_deposit, contract_balance, signer_balance) is Err,
        signer == store[id].release_signer ==> fund_outcome(
            store,
            id,
            signer,
            amount_to_deposit,
            contract_balance,
            signer_balance,
        ) == Err::<(), ContractError>(ContractError::EscrowOpenedForDisputeResolution),
        distribute_outcome(store, id, signer, recipient, contract_balance) is Err,
        signer == store[id].release_signer && store[id].milestones.len() > 0
            && store[id].all_milestones_flagged() ==> distribute_outcome(
            store,
            id,
            signer,
            recipient,
            contract_balance,
        ) == Err::<Seq<PayoutView>, ContractError>(ContractError::InvalidState),
{
}

/// Once set, the dispute flag stays set: freezing an escrow sets it, and
/// neither milestone update nor a second freeze clears it.
pub proof fn lemma_dispute_flag_persists(
    store: Map<Seq<char>, EscrowView>,
    id: Seq<char>,
    index: int,
    status: Seq<char>,
    flag: bool,
    caller: Seq<char>,
)
    ensures
        freeze_outcome(store, id, caller) is Ok ==> store_after(
            store,
            id,
            freeze_outcome(store, id, caller),
        )[id].dispute_flag,
        store.contains_key(id) && store[id].dispute_flag ==> {
            &&& store_after(store, id, status_outcome(store, id, index, status, caller))[id].dispute_flag
            &&& store_after(store, id, flag_outcome(store, id, index, flag, caller))[id].dispute_flag
            &&& store_after(store, id, freeze_outcome(store, id, caller))[id].dispute_flag
        },
{
}

/// A dispute resolution never pays out more than the contract holds: when it
/// succeeds, every payout is positive and together they come to at most the
/// contract's balance.
pub proof fn lemma_resolution_within_balance(
    store: Map<Seq<char>, EscrowView>,
    id: Seq<char>,
    caller: Seq<char>,
    client_funds: int,
    service_provider_funds: int,
    contract_balance: int,
)
    requires
        resolution_outcome(store, id, caller, client_funds, service_provider_funds, contract_balance) is Ok,
    ensures
        ({
            let payouts = resolution_outcome(
                store,
                id,
                caller,
                client_funds,
                service_provider_funds,
                contract_balance,
            )->Ok_0;
            &&& payout_total(payouts) <= contract_balance
            &&& forall|i: int| 0 <= i < payouts.len() ==> #[trigger] payouts[i].amount > 0
        }),
{
    let payouts = resolution_outcome(
        store,
        id,
        caller,
        client_funds,
        service_provider_funds,
        contract_balance,
    )->Ok_0;
    reveal_with_fuel(payout_total, 3);
    if client_funds > 0 && service_provider_funds > 0 {
        assert(payouts.drop_last().drop_last().len() == 0);
    } else if client_funds > 0 || service_provider_funds > 0 {
        assert(payouts.drop_last().len() == 0);
    }
}

/// Reads are stable: two reads of the same escrow from the same store state
/// give identical records (or the same error).
pub proof fn lemma_repeated_read(
    store: Map<Seq<char>, EscrowView>,
    id: Seq<char>,
    first: Result<Escrow, ContractError>,
    second: Result<Escrow, ContractError>,
)
    requires
        escrow_result_view(first) == read_outcome(store, id),
        escrow_result_view(second) == read_outcome(store, id),
    ensures
        escrow_result_view(first) == escrow_result_view(second),
        first is Ok <==> store.contains_key(id),
{
}

} // verus!
