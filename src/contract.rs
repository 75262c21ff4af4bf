use vstd::prelude::*;

use crate::dispute::{freeze_outcome, resolution_outcome, DisputeManager};
use crate::error::ContractError;
use crate::escrow::{
    amend_outcome,
    distribute_outcome,
    escrow_result_view,
    escrow_with_terms,
    fund_outcome,
    payouts_result_view,
    read_outcome,
    EscrowManager,
};
use crate::milestone::{flag_outcome, status_outcome, MilestoneManager};
use crate::store::{outcome_status, store_after, EscrowStore};
use crate::types::{milestones_view, AccountId, Escrow, EscrowView, Milestone, Payout};
use crate::user::{is_registered, unknown_user_text, UserEntryView, UserManager, UserRegistry, UserView};

verus! {

/// The escrow service: every escrow, keyed by engagement id, and the
/// registered users. Each operation either succeeds whole or changes nothing.
pub struct EngagementContract {
    escrows: EscrowStore,
    users: UserRegistry,
}

impl View for EngagementContract {
    type V = Map<Seq<char>, EscrowView>;

    /// The escrows, keyed by engagement id.
    closed spec fn view(&self) -> Map<Seq<char>, EscrowView> {
        self.escrows@
    }
}

impl EngagementContract {
    /// The registered users, in registration order.
    pub closed spec fn users(&self) -> Seq<UserEntryView> {
        self.users@
    }

    /// A service with no escrows and no users.
    pub fn new() -> (r: EngagementContract)
        ensures
            r@ == Map::<Seq<char>, EscrowView>::empty(),
            r.users() == Seq::<UserEntryView>::empty(),
    {
        EngagementContract { escrows: EscrowStore::new(), users: UserRegistry::new() }
    }

    /// Creates an escrow; see [`EscrowManager::initialize_escrow`].
    pub fn initialize_escrow(
        &mut self,
        engagement_id: String,
        client: AccountId,
        service_provider: AccountId,
        platform_address: AccountId,
        amount: i128,
        platform_fee: i128,
        milestones: Vec<Milestone>,
        release_signer: AccountId,
        dispute_resolver: AccountId,
    ) -> (r: Result<String, ContractError>)
        ensures
            old(self)@.contains_key(engagement_id@) ==> r == Err::<String, ContractError>(
                ContractError::EscrowAlreadyInitialized,
            ),
            !old(self)@.contains_key(engagement_id@) && amount == 0 ==> r == Err::<
                String,
                ContractError,
            >(ContractError::AmountCannotBeZero),
            r is Ok <==> !old(self)@.contains_key(engagement_id@) && amount != 0,
            r matches Ok(id) ==> id@ == engagement_id@,
            r is Ok ==> final(self)@ == old(self)@.insert(
                engagement_id@,
                escrow_with_terms(
                    engagement_id@,
                    client@,
                    service_provider@,
                    platform_address@,
                    amount as int,
                    platform_fee as int,
                    milestones_view(milestones@),
                    release_signer@,
                    dispute_resolver@,
                ),
            ),
            r is Err ==> final(self)@ == old(self)@,
            final(self).users() == old(self).users(),
    {
        EscrowManager::initialize_escrow(
            &mut self.escrows,
            engagement_id,
            client,
            service_provider,
            platform_address,
            amount,
            platform_fee,
            milestones,
            release_signer,
            dispute_resolver,
        )
    }

    /// Decides a deposit; see [`EscrowManager::fund_escrow`].
    pub fn fund_escrow(
        &self,
        engagement_id: &String,
        signer: &AccountId,
        amount_to_deposit: i128,
        contract_balance: i128,
        signer_balance: i128,
    ) -> (r: Result<(), ContractError>)
        ensures
            r == fund_outcome(
                self@,
                engagement_id@,
                signer@,
                amount_to_deposit as int,
                contract_balance as int,
                signer_balance as int,
            ),
    {
        EscrowManager::fund_escrow(
            &self.escrows,
            engagement_id,
            signer,
            amount_to_deposit,
            contract_balance,
            signer_balance,
        )
    }

    /// The payouts that release an escrow's earnings; see
    /// [`EscrowManager::distribute_escrow_earnings`].
    pub fn distribute_escrow_earnings(
        &self,
        engagement_id: &String,
        release_signer: &AccountId,
        platform_commission_recipient: &AccountId,
        contract_balance: i128,
    ) -> (r: Result<Vec<Payout>, ContractError>)
        ensures
            payouts_result_view(r) == distribute_outcome(
                self@,
                engagement_id@,
                release_signer@,
                platform_commission_recipient@,
                contract_balance as int,
            ),
    {
        EscrowManager::distribute_escrow_earnings(
            &self.escrows,
            engagement_id,
            release_signer,
            platform_commission_recipient,
            contract_balance,
        )
    }

    /// Replaces an escrow's terms; see [`EscrowManager::change_escrow_properties`].
    pub fn change_escrow_properties(
        &mut self,
        engagement_id: String,
        client: AccountId,
        service_provider: AccountId,
        platform_address: AccountId,
        amount: i128,
        platform_fee: i128,
        milestones: Vec<Milestone>,
        release_signer: AccountId,
        dispute_resolver: AccountId,
    ) -> (r: Result<(), ContractError>)
        ensures
            ({
                let outcome = amend_outcome(
                    old(self)@,
                    engagement_id@,
                    platform_address@,
                    escrow_with_terms(
                        engagement_id@,
                        client@,
                        service_provider@,
                        platform_address@,
                        amount as int,
                        platform_fee as int,
                        milestones_view(milestones@),
                        release_signer@,
                        dispute_resolver@,
                    ),
                );
                &&& r == outcome_status(outcome)
                &&& final(self)@ == store_after(old(self)@, engagement_id@, outcome)
            }),
            final(self).users() == old(self).users(),
    {
        EscrowManager::change_escrow_properties(
            &mut self.escrows,
            engagement_id,
            client,
            service_provider,
            platform_address,
            amount,
            platform_fee,
            milestones,
            release_signer,
            dispute_resolver,
        )
    }

    /// A copy of an escrow record.
    pub fn get_escrow_by_id(&self, engagement_id: &String) -> (r: Result<Escrow, ContractError>)
        ensures
            escrow_result_view(r) == read_outcome(self@, engagement_id@),
    {
        EscrowManager::get_escrow_by_id(&self.escrows, engagement_id)
    }

    /// Sets a milestone's status; see [`MilestoneManager::change_milestone_status`].
    pub fn change_milestone_status(
        &mut self,
        engagement_id: &String,
        milestone_index: i128,
        new_status: String,
        service_provider: &AccountId,
    ) -> (r: Result<(), ContractError>)
        ensures
            ({
                let outcome = status_outcome(
                    old(self)@,
                    engagement_id@,
                    milestone_index as int,
                    new_status@,
                    service_provider@,
                );
                &&& r == outcome_status(outcome)
                &&& final(self)@ == store_after(old(self)@, engagement_id@, outcome)
            }),
            final(self).users() == old(self).users(),
    {
        MilestoneManager::change_milestone_status(
            &mut self.escrows,
            engagement_id,
            milestone_index,
            new_status,
            service_provider,
        )
    }

    /// Sets a milestone's completion flag; see
    /// [`MilestoneManager::change_milestone_flag`].
    pub fn change_milestone_flag(
        &mut self,
        engagement_id: &String,
        milestone_index: i128,
        new_flag: bool,
        client: &AccountId,
    ) -> (r: Result<(), ContractError>)
        ensures
            ({
                let outcome = flag_outcome(
                    old(self)@,
                    engagement_id@,
                    milestone_index as int,
                    new_flag,
                    client@,
                );
                &&& r == outcome_status(outcome)
                &&& final(self)@ == store_after(old(self)@, engagement_id@, outcome)
            }),
            final(self).users() == old(self).users(),
    {
        MilestoneManager::change_milestone_flag(
            &mut self.escrows,
            engagement_id,
            milestone_index,
            new_flag,
            client,
        )
    }

    /// The payouts of a dispute resolution; see [`DisputeManager::resolving_disputes`].
    pub fn resolving_disputes(
        &self,
        engagement_id: &String,
        dispute_resolver: &AccountId,
        client_funds: i128,
        service_provider_funds: i128,
        contract_balance: i128,
    ) -> (r: Result<Vec<Payout>, ContractError>)
        ensures
            payouts_result_view(r) == resolution_outcome(
                self@,
                engagement_id@,
                dispute_resolver@,
                client_funds as int,
                service_provider_funds as int,
                contract_balance as int,
            ),
    {
        DisputeManager::resolving_disputes(
            &self.escrows,
            engagement_id,
            dispute_resolver,
            client_funds,
            service_provider_funds,
            contract_balance,
        )
    }

    /// Freezes an escrow for arbitration; see [`DisputeManager::change_dispute_flag`].
    pub fn change_dispute_flag(&mut self, engagement_id: &String, dispute_resolver: &AccountId) -> (r:
        Result<(), ContractError>)
        ensures
            ({
                let outcome = freeze_outcome(old(self)@, engagement_id@, dispute_resolver@);
                &&& r == outcome_status(outcome)
                &&& final(self)@ == store_after(old(self)@, engagement_id@, outcome)
            }),
            final(self).users() == old(self).users(),
    {
        DisputeManager::change_dispute_flag(&mut self.escrows, engagement_id, dispute_resolver)
    }

    /// The number of registered users.
    pub fn user_count(&self) -> (r: usize)
        ensures
            r == self.users().len(),
    {
        self.users.len()
    }

    /// Registers a user; see [`UserManager::register`].
    pub fn register_user(
        &mut self,
        user_address: AccountId,
        name: String,
        email: String,
        timestamp: u64,
        ledger_sequence: u32,
    ) -> (r: bool)
        requires
            old(self).users().len() < u64::MAX,
        ensures
            r == !is_registered(old(self).users(), user_address@),
            r ==> final(self).users() == old(self).users().push(
                UserEntryView {
                    profile: UserView {
                        id: old(self).users().len() + 1int,
                        user: user_address@,
                        name: name@,
                        email: email@,
                        registered: true,
                        timestamp: timestamp as int,
                    },
                    registration_ledger: ledger_sequence,
                },
            ),
            !r ==> final(self).users() == old(self).users(),
            final(self)@ == old(self)@,
    {
        UserManager::register(&mut self.users, user_address, name, email, timestamp, ledger_sequence)
    }

    /// The name registered for an account; see [`UserManager::login`].
    pub fn login(&self, user_address: &AccountId) -> (r: String)
        ensures
            !is_registered(self.users(), user_address@) ==> r@ == unknown_user_text(),
            forall|i: int|
                0 <= i < self.users().len() && #[trigger] self.users()[i].profile.user
                    == user_address@ ==> r@ == self.users()[i].profile.name,
    {
        UserManager::login(&self.users, user_address)
    }
}

} // verus!
