use vstd::prelude::*;

use crate::error::ContractError;
use crate::escrow::payouts_result_view;
use crate::store::{outcome_status, store_after, EscrowStore};
use crate::types::{payouts_view, AccountId, Escrow, EscrowView, Payout, PayoutView};

verus! {

/// Outcome of freezing escrow `id` for arbitration on behalf of `caller`; on
/// success, the record that is written.
pub open spec fn freeze_outcome(
    store: Map<Seq<char>, EscrowView>,
    id: Seq<char>,
    caller: Seq<char>,
) -> Result<EscrowView, ContractError> {
    if !store.contains_key(id) {
        Err(ContractError::EscrowNotFound)
    } else if caller != store[id].dispute_resolver {
        Err(ContractError::OnlyDisputeResolverCanExecuteThisFunction)
    } else if store[id].dispute_flag {
        Err(ContractError::EscrowAlreadyInDispute)
    } else {
        Ok(EscrowView { dispute_flag: true, ..store[id] })
    }
}

/// The payouts of a resolution: `client_funds` to the client and
/// `service_provider_funds` to the service provider, each only when positive.
pub open spec fn resolution_payouts(
    e: EscrowView,
    client_funds: int,
    service_provider_funds: int,
) -> Seq<PayoutView> {
    let to_client = if client_funds > 0 {
        seq![PayoutView { recipient: e.client, amount: client_funds }]
    } else {
        Seq::empty()
    };
    let to_provider = if service_provider_funds > 0 {
        seq![PayoutView { recipient: e.service_provider, amount: service_provider_funds }]
    } else {
        Seq::empty()
    };
    to_client + to_provider
}

/// Outcome of a resolver-directed split of escrow `id`, requested by `caller`,
/// given the contract's live balance.
pub open spec fn resolution_outcome(
    store: Map<Seq<char>, EscrowView>,
    id: Seq<char>,
    caller: Seq<char>,
    client_funds: int,
    service_provider_funds: int,
    contract_balance: int,
) -> Result<Seq<PayoutView>, ContractError> {
    if !store.contains_key(id) {
        Err(ContractError::EscrowNotFound)
    } else if caller != store[id].dispute_resolver {
        Err(ContractError::OnlyDisputeResolverCanExecuteThisFunction)
    } else if !store[id].dispute_flag {
        Err(ContractError::EscrowNotInDispute)
    } else if client_funds + service_provider_funds > contract_balance {
        Err(ContractError::InsufficientFundsForResolution)
    } else if client_funds < 0 || service_provider_funds < 0 {
        Err(ContractError::NegativeAmountNotAllowed)
    } else {
        Ok(resolution_payouts(store[id], client_funds, service_provider_funds))
    }
}

/// Freezing escrows for arbitration and executing the resolver's split.
pub struct DisputeManager;

impl DisputeManager {
    /// The payouts that carry out the dispute resolver's split of the
    /// contract's funds. The resolver decides the split freely: nothing asks
    /// it to add up to the escrow amount, but together the shares may not
    /// exceed the contract's balance, and a split that fits the balance only
    /// thanks to a negative share is refused. The dispute flag stays set.
    pub fn resolving_disputes(
        store: &EscrowStore,
        engagement_id: &String,
        dispute_resolver: &AccountId,
        client_funds: i128,
        service_provider_funds: i128,
        contract_balance: i128,
    ) -> (r: Result<Vec<Payout>, ContractError>)
        ensures
            payouts_result_view(r) == resolution_outcome(
                store@,
                engagement_id@,
                dispute_resolver@,
                client_funds as int,
                service_provider_funds as int,
                contract_balance as int,
            ),
    {
        let escrow = match store.get(engagement_id) {
            Some(e) => e,
            None => {
                return Err(ContractError::EscrowNotFound);
            },
        };
        if *dispute_resolver != escrow.dispute_resolver {
            return Err(ContractError::OnlyDisputeResolverCanExecuteThisFunction);
        }
        if !escrow.dispute_flag {
            return Err(ContractError::EscrowNotInDispute);
        }
        let exceeds = match client_funds.checked_add(service_provider_funds) {
            Some(total) => total > contract_balance,
            // the true sum lies beyond the range of i128 on the side of its sign
            None => client_funds > 0,
        };
        if exceeds {
            return Err(ContractError::InsufficientFundsForResolution);
        }
        if client_funds < 0 || service_provider_funds < 0 {
            return Err(ContractError::NegativeAmountNotAllowed);
        }
        let mut payouts: Vec<Payout> = Vec::new();
        if client_funds > 0 {
            payouts.push(Payout { recipient: escrow.client.clone(), amount: client_funds });
        }
        if service_provider_funds > 0 {
            payouts.push(
                Payout { recipient: escrow.service_provider.clone(), amount: service_provider_funds },
            );
        }
        assert(payouts_view(payouts@) =~= resolution_payouts(
            escrow@,
            client_funds as int,
            service_provider_funds as int,
        ));
        Ok(payouts)
    }

    /// Freezes the escrow for arbitration. Only the dispute resolver on file
    /// may do so, and only once.
    pub fn change_dispute_flag(
        store: &mut EscrowStore,
        engagement_id: &String,
        dispute_resolver: &AccountId,
    ) -> (r: Result<(), ContractError>)
        ensures
            ({
                let outcome = freeze_outcome(old(store)@, engagement_id@, dispute_resolver@);
                &&& r == outcome_status(outcome)
                &&& final(store)@ == store_after(old(store)@, engagement_id@, outcome)
            }),
    {
        let existing = match store.get(engagement_id) {
            Some(e) => e,
            None => {
                return Err(ContractError::EscrowNotFound);
            },
        };
        if *dispute_resolver != existing.dispute_resolver {
            return Err(ContractError::OnlyDisputeResolverCanExecuteThisFunction);
        }
        if existing.dispute_flag {
            return Err(ContractError::EscrowAlreadyInDispute);
        }
        let mut updated: Escrow = existing.duplicate();
        updated.dispute_flag = true;
        store.set(updated);
        Ok(())
    }
}

} // verus!
