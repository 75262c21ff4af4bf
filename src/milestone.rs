use vstd::prelude::*;

use crate::error::ContractError;
use crate::store::{outcome_status, store_after, EscrowStore};
use crate::types::{milestones_view, AccountId, Escrow, EscrowView, Milestone, MilestoneView};

verus! {

/// `e` with the status of milestone `index` replaced by `status`.
pub open spec fn with_milestone_status(e: EscrowView, index: int, status: Seq<char>) -> EscrowView {
    EscrowView {
        milestones: e.milestones.update(index, MilestoneView { status, ..e.milestones[index] }),
        ..e
    }
}

/// `e` with the completion flag of milestone `index` replaced by `flag`.
pub open spec fn with_milestone_flag(e: EscrowView, index: int, flag: bool) -> EscrowView {
    EscrowView {
        milestones: e.milestones.update(index, MilestoneView { flag, ..e.milestones[index] }),
        ..e
    }
}

/// The checks shared by both milestone updates, once the caller's role is
/// known to be right: a milestone list, and an index inside it.
pub open spec fn milestone_index_error(e: EscrowView, index: int) -> Option<ContractError> {
    if e.milestones.len() == 0 {
        Some(ContractError::NoMileStoneDefined)
    } else if index < 0 || index >= e.milestones.len() {
        Some(ContractError::InvalidMileStoneIndex)
    } else {
        None
    }
}

/// Outcome of setting the status of milestone `index` of escrow `id` on behalf
/// of `caller`; on success, the record that is written.
pub open spec fn status_outcome(
    store: Map<Seq<char>, EscrowView>,
    id: Seq<char>,
    index: int,
    status: Seq<char>,
    caller: Seq<char>,
) -> Result<EscrowView, ContractError> {
    if !store.contains_key(id) {
        Err(ContractError::EscrowNotFound)
    } else if caller != store[id].service_provider {
        Err(ContractError::OnlyServiceProviderChangeMilstoneStatus)
    } else if let Some(e) = milestone_index_error(store[id], index) {
        Err(e)
    } else {
        Ok(with_milestone_status(store[id], index, status))
    }
}

/// Outcome of setting the completion flag of milestone `index` of escrow `id`
/// on behalf of `caller`; on success, the record that is written.
pub open spec fn flag_outcome(
    store: Map<Seq<char>, EscrowView>,
    id: Seq<char>,
    index: int,
    flag: bool,
    caller: Seq<char>,
) -> Result<EscrowView, ContractError> {
    if !store.contains_key(id) {
        Err(ContractError::EscrowNotFound)
    } else if caller != store[id].client {
        Err(ContractError::OnlyClientChangeMilstoneFlag)
    } else if let Some(e) = milestone_index_error(store[id], index) {
        Err(e)
    } else {
        Ok(with_milestone_flag(store[id], index, flag))
    }
}

/// Progress reports by the service provider and completion marks by the client.
pub struct MilestoneManager;

impl MilestoneManager {
    /// Validates a milestone index against a list of `len` milestones.
    fn check_index(len: usize, milestone_index: i128) -> (r: Option<ContractError>)
        ensures
            r == (if len == 0 {
                Some(ContractError::NoMileStoneDefined)
            } else if milestone_index < 0 || milestone_index >= len {
                Some(ContractError::InvalidMileStoneIndex)
            } else {
                None::<ContractError>
            }),
    {
        if len == 0 {
            return Some(ContractError::NoMileStoneDefined);
        }
        if milestone_index < 0 || milestone_index >= len as i128 {
            return Some(ContractError::InvalidMileStoneIndex);
        }
        None
    }

    /// Replaces the status text of milestone `milestone_index`, leaving every
    /// other field and milestone as it was. Only the service provider on file
    /// may do so.
    pub fn change_milestone_status(
        store: &mut EscrowStore,
        engagement_id: &String,
        milestone_index: i128,
        new_status: String,
        service_provider: &AccountId,
    ) -> (r: Result<(), ContractError>)
        ensures
            ({
                let outcome = status_outcome(
                    old(store)@,
                    engagement_id@,
                    milestone_index as int,
                    new_status@,
                    service_provider@,
                );
                &&& r == outcome_status(outcome)
                &&& final(store)@ == store_after(old(store)@, engagement_id@, outcome)
            }),
    {
        let existing = match store.get(engagement_id) {
            Some(e) => e,
            None => {
                return Err(ContractError::EscrowNotFound);
            },
        };
        if *service_provider != existing.service_provider {
            return Err(ContractError::OnlyServiceProviderChangeMilstoneStatus);
        }
        assert(existing@.milestones.len() == existing.milestones@.len());
        if let Some(e) = Self::check_index(existing.milestones.len(), milestone_index) {
            return Err(e);
        }
        let index = milestone_index as usize;
        let mut updated: Escrow = existing.duplicate();
        let replacement = Milestone {
            description: updated.milestones[index].description.clone(),
            status: new_status,
            flag: updated.milestones[index].flag,
        };
        let ghost before = updated.milestones@;
        updated.milestones.set(index, replacement);
        assert(milestones_view(updated.milestones@) =~= milestones_view(before).update(
            index as int,
            replacement@,
        ));
        assert(updated@ == with_milestone_status(existing@, index as int, new_status@));
        store.set(updated);
        Ok(())
    }

    /// Replaces the completion flag of milestone `milestone_index`, leaving
    /// every other field and milestone as it was. Only the client on file may
    /// do so.
    pub fn change_milestone_flag(
        store: &mut EscrowStore,
        engagement_id: &String,
        milestone_index: i128,
        new_flag: bool,
        client: &AccountId,
    ) -> (r: Result<(), ContractError>)
        ensures
            ({
                let outcome = flag_outcome(
                    old(store)@,
                    engagement_id@,
                    milestone_index as int,
                    new_flag,
                    client@,
                );
                &&& r == outcome_status(outcome)
                &&& final(store)@ == store_after(old(store)@, engagement_id@, outcome)
            }),
    {
        let existing = match store.get(engagement_id) {
            Some(e) => e,
            None => {
                return Err(ContractError::EscrowNotFound);
            },
        };
        if *client != existing.client {
            return Err(ContractError::OnlyClientChangeMilstoneFlag);
        }
        assert(existing@.milestones.len() == existing.milestones@.len());
        if let Some(e) = Self::check_index(existing.milestones.len(), milestone_index) {
            return Err(e);
        }
        let index = milestone_index as usize;
        let mut updated: Escrow = existing.duplicate();
        let replacement = Milestone {
            description: updated.milestones[index].description.clone(),
            status: updated.milestones[index].status.clone(),
            flag: new_flag,
        };
        let ghost before = updated.milestones@;
        updated.milestones.set(index, replacement);
        assert(milestones_view(updated.milestones@) =~= milestones_view(before).update(
            index as int,
            replacement@,
        ));
        assert(updated@ == with_milestone_flag(existing@, index as int, new_flag));
        store.set(updated);
        Ok(())
    }
}

} // verus!
