use vstd::prelude::*;

use crate::error::ContractError;
use crate::fees::{
    platform_commission_of,
    protocol_fee_of,
    provider_share_of,
    split_earnings,
    split_is_sound,
};
use crate::store::{outcome_status, store_after, EscrowStore};
use crate::types::{
    milestones_all_flagged,
    milestones_view,
    payouts_view,
    AccountId,
    Escrow,
    EscrowView,
    Milestone,
    MilestoneView,
    Payout,
    PayoutView,
};

verus! {

/// The record that creating or re-creating an escrow writes: the given terms,
/// not in dispute.
pub open spec fn escrow_with_terms(
    engagement_id: Seq<char>,
    client: Seq<char>,
    service_provider: Seq<char>,
    platform_address: Seq<char>,
    amount: int,
    platform_fee: int,
    milestones: Seq<MilestoneView>,
    release_signer: Seq<char>,
    dispute_resolver: Seq<char>,
) -> EscrowView {
    EscrowView {
        engagement_id,
        client,
        service_provider,
        platform_address,
        amount,
        platform_fee,
        milestones,
        release_signer,
        dispute_resolver,
        dispute_flag: false,
    }
}

/// Outcome of a deposit by `signer` into the escrow `id`, given the contract's
/// and the signer's live balances.
pub open spec fn fund_outcome(
    store: Map<Seq<char>, EscrowView>,
    id: Seq<char>,
    signer: Seq<char>,
    amount_to_deposit: int,
    contract_balance: int,
    signer_balance: int,
) -> Result<(), ContractError> {
    if !store.contains_key(id) {
        Err(ContractError::EscrowNotFound)
    } else if signer != store[id].release_signer {
        Err(ContractError::OnlySignerCanFundEscrow)
    } else if store[id].dispute_flag {
        Err(ContractError::EscrowOpenedForDisputeResolution)
    } else if contract_balance > store[id].amount {
        Err(ContractError::EscrowFullyFunded)
    } else if amount_to_deposit > store[id].amount {
        Err(ContractError::AmountToDepositGreatherThanEscrowAmount)
    } else if signer_balance < amount_to_deposit {
        Err(ContractError::SignerInsufficientFunds)
    } else if amount_to_deposit == 0 {
        Err(ContractError::AmountCannotBeZero)
    } else if amount_to_deposit < 0 {
        Err(ContractError::NegativeAmountNotAllowed)
    } else {
        Ok(())
    }
}

/// The three payouts of a completed escrow, in order: the protocol commission
/// to `recipient`, the platform commission to the platform, the rest to the
/// service provider.
pub open spec fn earnings_payouts(e: EscrowView, recipient: Seq<char>) -> Seq<PayoutView> {
    seq![
        PayoutView { recipient, amount: protocol_fee_of(e.amount) },
        PayoutView {
            recipient: e.platform_address,
            amount: platform_commission_of(e.amount, e.platform_fee),
        },
        PayoutView {
            recipient: e.service_provider,
            amount: provider_share_of(e.amount, e.platform_fee),
        },
    ]
}

/// Outcome of releasing the earnings of escrow `id`, requested by `signer`,
/// given the contract's live balance.
pub open spec fn distribute_outcome(
    store: Map<Seq<char>, EscrowView>,
    id: Seq<char>,
    signer: Seq<char>,
    recipient: Seq<char>,
    contract_balance: int,
) -> Result<Seq<PayoutView>, ContractError> {
    if !store.contains_key(id) {
        Err(ContractError::EscrowNotFound)
    } else if signer != store[id].release_signer {
        Err(ContractError::OnlyReleaseSignerCanClaimEarnings)
    } else if store[id].milestones.len() == 0 {
        Err(ContractError::NoMileStoneDefined)
    } else if !store[id].all_milestones_flagged() {
        Err(ContractError::EscrowNotCompleted)
    } else if store[id].dispute_flag {
        Err(ContractError::InvalidState)
    } else if contract_balance < store[id].amount {
        Err(ContractError::EscrowBalanceNotSufficienteToSendEarnings)
    } else if !split_is_sound(store[id].amount, store[id].platform_fee) {
        Err(ContractError::InvalidFeeConfiguration)
    } else {
        Ok(earnings_payouts(store[id], recipient))
    }
}

/// Outcome of replacing the terms of escrow `id`, requested with
/// `platform_address`; on success, the record that is written.
pub open spec fn amend_outcome(
    store: Map<Seq<char>, EscrowView>,
    id: Seq<char>,
    platform_address: Seq<char>,
    terms: EscrowView,
) -> Result<EscrowView, ContractError> {
    if !store.contains_key(id) {
        Err(ContractError::EscrowNotFound)
    } else if platform_address != store[id].platform_address {
        Err(ContractError::OnlyPlatformAddressExecuteThisFunction)
    } else if terms.amount == 0 {
        Err(ContractError::AmountCannotBeZero)
    } else {
        Ok(terms)
    }
}

/// A payout list seen through its views, the error kept as it is.
pub open spec fn payouts_result_view(r: Result<Vec<Payout>, ContractError>) -> Result<
    Seq<PayoutView>,
    ContractError,
> {
    match r {
        Ok(ps) => Ok(payouts_view(ps@)),
        Err(e) => Err(e),
    }
}

/// Outcome of reading escrow `id`.
pub open spec fn read_outcome(store: Map<Seq<char>, EscrowView>, id: Seq<char>) -> Result<
    EscrowView,
    ContractError,
> {
    if store.contains_key(id) {
        Ok(store[id])
    } else {
        Err(ContractError::EscrowNotFound)
    }
}

/// A record result seen through its view, the error kept as it is.
pub open spec fn escrow_result_view(r: Result<Escrow, ContractError>) -> Result<
    EscrowView,
    ContractError,
> {
    match r {
        Ok(e) => Ok(e@),
        Err(e) => Err(e),
    }
}

/// Creation, funding, release and amendment of escrows.
pub struct EscrowManager;

impl EscrowManager {
    /// Creates the escrow `engagement_id` with the given terms, not in dispute,
    /// and returns its id. Anyone may create an escrow.
    pub fn initialize_escrow(
        store: &mut EscrowStore,
        engagement_id: String,
        client: AccountId,
        service_provider: AccountId,
        platform_address: AccountId,
        amount: i128,
        platform_fee: i128,
        milestones: Vec<Milestone>,
        release_signer: AccountId,
        dispute_resolver: AccountId,
    ) -> (r: Result<String, ContractError>)
        ensures
            old(store)@.contains_key(engagement_id@) ==> r == Err::<String, ContractError>(
                ContractError::EscrowAlreadyInitialized,
            ),
            !old(store)@.contains_key(engagement_id@) && amount == 0 ==> r == Err::<
                String,
                ContractError,
            >(ContractError::AmountCannotBeZero),
            r is Ok <==> !old(store)@.contains_key(engagement_id@) && amount != 0,
            r matches Ok(id) ==> id@ == engagement_id@,
            r is Ok ==> final(store)@ == old(store)@.insert(
                engagement_id@,
                escrow_with_terms(
                    engagement_id@,
                    client@,
                    service_provider@,
                    platform_address@,
                    amount as int,
                    platform_fee as int,
                    milestones_view(milestones@),
                    release_signer@,
                    dispute_resolver@,
                ),
            ),
            r is Err ==> final(store)@ == old(store)@,
    {
        if store.has(&engagement_id) {
            return Err(ContractError::EscrowAlreadyInitialized);
        }
        if amount == 0 {
            return Err(ContractError::AmountCannotBeZero);
        }
        let echoed = engagement_id.clone();
        let escrow = Escrow {
            engagement_id,
            client,
            service_provider,
            platform_address,
            amount,
            platform_fee,
            milestones,
            release_signer,
            dispute_resolver,
            dispute_flag: false,
        };
        store.set(escrow);
        Ok(echoed)
    }

    /// Decides whether `amount_to_deposit` may be moved from `signer` into
    /// the contract's custody. Only the release signer on file may deposit, and
    /// only a positive amount. Funding is incremental: the contract's live
    /// balance stands in for what was deposited so far.
    pub fn fund_escrow(
        store: &EscrowStore,
        engagement_id: &String,
        signer: &AccountId,
        amount_to_deposit: i128,
        contract_balance: i128,
        signer_balance: i128,
    ) -> (r: Result<(), ContractError>)
        ensures
            r == fund_outcome(
                store@,
                engagement_id@,
                signer@,
                amount_to_deposit as int,
                contract_balance as int,
                signer_balance as int,
            ),
    {
        let escrow = match store.get(engagement_id) {
            Some(e) => e,
            None => {
                return Err(ContractError::EscrowNotFound);
            },
        };
        if *signer != escrow.release_signer {
            return Err(ContractError::OnlySignerCanFundEscrow);
        }
        if escrow.dispute_flag {
            return Err(ContractError::EscrowOpenedForDisputeResolution);
        }
        if contract_balance > escrow.amount {
            return Err(ContractError::EscrowFullyFunded);
        }
        if amount_to_deposit > escrow.amount {
            return Err(ContractError::AmountToDepositGreatherThanEscrowAmount);
        }
        if signer_balance < amount_to_deposit {
            return Err(ContractError::SignerInsufficientFunds);
        }
        if amount_to_deposit == 0 {
            return Err(ContractError::AmountCannotBeZero);
        }
        if amount_to_deposit < 0 {
            return Err(ContractError::NegativeAmountNotAllowed);
        }
        Ok(())
    }

    /// The payouts that release the earnings of a completed escrow: the
    /// protocol commission to `platform_commission_recipient`, the platform
    /// commission to the platform, and the rest to the service provider.
    pub fn distribute_escrow_earnings(
        store: &EscrowStore,
        engagement_id: &String,
        release_signer: &AccountId,
        platform_commission_recipient: &AccountId,
        contract_balance: i128,
    ) -> (r: Result<Vec<Payout>, ContractError>)
        ensures
            payouts_result_view(r) == distribute_outcome(
                store@,
                engagement_id@,
                release_signer@,
                platform_commission_recipient@,
                contract_balance as int,
            ),
    {
        let escrow = match store.get(engagement_id) {
            Some(e) => e,
            None => {
                return Err(ContractError::EscrowNotFound);
            },
        };
        if *release_signer != escrow.release_signer {
            return Err(ContractError::OnlyReleaseSignerCanClaimEarnings);
        }
        assert(escrow@.milestones.len() == escrow.milestones@.len());
        if escrow.milestones.len() == 0 {
            return Err(ContractError::NoMileStoneDefined);
        }
        if !milestones_all_flagged(&escrow.milestones) {
            return Err(ContractError::EscrowNotCompleted);
        }
        if escrow.dispute_flag {
            return Err(ContractError::InvalidState);
        }
        if contract_balance < escrow.amount {
            return Err(ContractError::EscrowBalanceNotSufficienteToSendEarnings);
        }
        let split = match split_earnings(escrow.amount, escrow.platform_fee) {
            Ok(s) => s,
            Err(e) => {
                return Err(e);
            },
        };
        let mut payouts: Vec<Payout> = Vec::new();
        payouts.push(
            Payout { recipient: platform_commission_recipient.clone(), amount: split.protocol_fee },
        );
        payouts.push(
            Payout {
                recipient: escrow.platform_address.clone(),
                amount: split.platform_commission,
            },
        );
        payouts.push(
            Payout {
                recipient: escrow.service_provider.clone(),
                amount: split.service_provider_amount,
            },
        );
        assert(payouts_view(payouts@) =~= earnings_payouts(escrow@, platform_commission_recipient@));
        Ok(payouts)
    }

    /// Replaces every term of the escrow and clears its dispute flag. Only a
    /// request naming the platform address on file is accepted, and the new
    /// amount may not be zero.
    pub fn change_escrow_properties(
        store: &mut EscrowStore,
        engagement_id: String,
        client: AccountId,
        service_provider: AccountId,
        platform_address: AccountId,
        amount: i128,
        platform_fee: i128,
        milestones: Vec<Milestone>,
        release_signer: AccountId,
        dispute_resolver: AccountId,
    ) -> (r: Result<(), ContractError>)
        ensures
            ({
                let outcome = amend_outcome(
                    old(store)@,
                    engagement_id@,
                    platform_address@,
                    escrow_with_terms(
                        engagement_id@,
                        client@,
                        service_provider@,
                        platform_address@,
                        amount as int,
                        platform_fee as int,
                        milestones_view(milestones@),
                        release_signer@,
                        dispute_resolver@,
                    ),
                );
                &&& r == outcome_status(outcome)
                &&& final(store)@ == store_after(old(store)@, engagement_id@, outcome)
            }),
    {
        let existing = match store.get(&engagement_id) {
            Some(e) => e,
            None => {
                return Err(ContractError::EscrowNotFound);
            },
        };
        if platform_address != existing.platform_address {
            return Err(ContractError::OnlyPlatformAddressExecuteThisFunction);
        }
        if amount == 0 {
            return Err(ContractError::AmountCannotBeZero);
        }
        let updated = Escrow {
            engagement_id,
            client,
            service_provider,
            platform_address,
            amount,
            platform_fee,
            milestones,
            release_signer,
            dispute_resolver,
            dispute_flag: false,
        };
        store.set(updated);
        Ok(())
    }

    /// A copy of the escrow `engagement_id`.
    pub fn get_escrow_by_id(store: &EscrowStore, engagement_id: &String) -> (r: Result<
        Escrow,
        ContractError,
    >)
        ensures
            escrow_result_view(r) == read_outcome(store@, engagement_id@),
    {
        match store.get(engagement_id) {
            Some(e) => Ok(e.duplicate()),
            None => Err(ContractError::EscrowNotFound),
        }
    }
}

} // verus!
