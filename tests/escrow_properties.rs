use engagement::{
    split_earnings, ContractError, EngagementContract, Escrow, EscrowStore, FeeSplit, Milestone, Payout,
};

fn milestone(description: &str, flag: bool) -> Milestone {
    Milestone { description: description.to_string(), status: "Pending".to_string(), flag }
}

fn payout(recipient: &str, amount: i128) -> Payout {
    Payout { recipient: recipient.to_string(), amount }
}

const CLIENT: &str = "GCLIENT";
const PROVIDER: &str = "GPROVIDER";
const PLATFORM: &str = "GPLATFORM";
const SIGNER: &str = "GSIGNER";
const RESOLVER: &str = "GRESOLVER";
const PROTOCOL: &str = "GPROTOCOL";

fn with_escrow(id: &str, amount: i128, platform_fee: i128, milestones: Vec<Milestone>) -> EngagementContract {
    let mut contract = EngagementContract::new();
    let r = contract.initialize_escrow(
        id.to_string(),
        CLIENT.to_string(),
        PROVIDER.to_string(),
        PLATFORM.to_string(),
        amount,
        platform_fee,
        milestones,
        SIGNER.to_string(),
        RESOLVER.to_string(),
    );
    assert_eq!(r, Ok(id.to_string()));
    contract
}

fn two_milestones() -> Vec<Milestone> {
    vec![milestone("First milestone", false), milestone("Second milestone", false)]
}

#[test]
fn release_splits_three_ways() {
    let id = "engagement-a".to_string();
    let mut contract = with_escrow(&id, 100_000_000, 3, two_milestones());
    contract.change_milestone_flag(&id, 0, true, &CLIENT.to_string()).unwrap();
    contract.change_milestone_flag(&id, 1, true, &CLIENT.to_string()).unwrap();
    let payouts = contract
        .distribute_escrow_earnings(&id, &SIGNER.to_string(), &PROTOCOL.to_string(), 100_000_000)
        .unwrap();
    assert_eq!(
        payouts,
        vec![payout(PROTOCOL, 300_000), payout(PLATFORM, 3_000_000), payout(PROVIDER, 96_700_000)]
    );
    let paid: i128 = payouts.iter().map(|p| p.amount).sum();
    assert_eq!(100_000_000 - paid, 0);
}

#[test]
fn deposit_above_amount_is_refused() {
    let id = "engagement-b".to_string();
    let contract = with_escrow(&id, 100_000, 3, two_milestones());
    assert_eq!(
        contract.fund_escrow(&id, &SIGNER.to_string(), 100_001, 0, 1_000_000),
        Err(ContractError::AmountToDepositGreatherThanEscrowAmount)
    );
}

#[test]
fn amendment_by_other_platform_is_refused() {
    let id = "engagement-c".to_string();
    let mut contract = with_escrow(&id, 100_000, 3, two_milestones());
    let before = contract.get_escrow_by_id(&id).unwrap();
    let r = contract.change_escrow_properties(
        id.clone(),
        CLIENT.to_string(),
        PROVIDER.to_string(),
        "GOTHERPLATFORM".to_string(),
        5,
        5,
        vec![],
        SIGNER.to_string(),
        RESOLVER.to_string(),
    );
    assert_eq!(r, Err(ContractError::OnlyPlatformAddressExecuteThisFunction));
    assert_eq!(contract.get_escrow_by_id(&id).unwrap(), before);
}

#[test]
fn resolution_pays_both_parties() {
    let id = "engagement-d".to_string();
    let mut contract = with_escrow(&id, 100_000_000, 3, two_milestones());
    contract.change_dispute_flag(&id, &RESOLVER.to_string()).unwrap();
    let payouts = contract
        .resolving_disputes(&id, &RESOLVER.to_string(), 40_000_000, 60_000_000, 100_000_000)
        .unwrap();
    assert_eq!(payouts, vec![payout(CLIENT, 40_000_000), payout(PROVIDER, 60_000_000)]);
    let paid: i128 = payouts.iter().map(|p| p.amount).sum();
    assert_eq!(100_000_000 - paid, 0);
    // the dispute flag is not cleared by a resolution
    assert!(contract.get_escrow_by_id(&id).unwrap().dispute_flag);
}

#[test]
fn milestone_index_out_of_range() {
    let id = "engagement-e".to_string();
    let mut contract = with_escrow(&id, 100_000, 3, two_milestones());
    assert_eq!(
        contract.change_milestone_status(&id, 10, "done".to_string(), &PROVIDER.to_string()),
        Err(ContractError::InvalidMileStoneIndex)
    );
    assert_eq!(
        contract.change_milestone_status(&id, -1, "done".to_string(), &PROVIDER.to_string()),
        Err(ContractError::InvalidMileStoneIndex)
    );
    assert_eq!(
        contract.change_milestone_flag(&id, 2, true, &CLIENT.to_string()),
        Err(ContractError::InvalidMileStoneIndex)
    );
}

#[test]
fn fee_split_adds_up_on_uneven_amounts() {
    let s = split_earnings(12_345, 7).unwrap();
    assert_eq!(s, FeeSplit { protocol_fee: 37, platform_commission: 864, service_provider_amount: 11_444 });
    assert_eq!(s.protocol_fee + s.platform_commission + s.service_provider_amount, 12_345);
}

#[test]
fn fee_split_of_the_largest_amount() {
    let amount = i128::MAX;
    let s = split_earnings(amount, 50).unwrap();
    assert_eq!(s.protocol_fee, amount / 10_000 * 30 + amount % 10_000 * 30 / 10_000);
    assert_eq!(s.platform_commission, amount / 2);
    assert_eq!(s.protocol_fee + s.platform_commission + s.service_provider_amount, amount);
}

#[test]
fn fee_split_edges() {
    // a tiny amount can carry a rate above 100% without going negative
    assert_eq!(
        split_earnings(1, 199),
        Ok(FeeSplit { protocol_fee: 0, platform_commission: 1, service_provider_amount: 0 })
    );
    assert_eq!(split_earnings(100, 101), Err(ContractError::InvalidFeeConfiguration));
    assert_eq!(split_earnings(0, 3), Err(ContractError::InvalidFeeConfiguration));
    assert_eq!(split_earnings(-5, 3), Err(ContractError::InvalidFeeConfiguration));
    assert_eq!(split_earnings(1_000, -1), Err(ContractError::InvalidFeeConfiguration));
    assert_eq!(split_earnings(i128::MAX, i128::MAX), Err(ContractError::InvalidFeeConfiguration));
    assert_eq!(
        split_earnings(100_000_000, 0),
        Ok(FeeSplit { protocol_fee: 300_000, platform_commission: 0, service_provider_amount: 99_700_000 })
    );
}

#[test]
fn release_with_pathological_fee_fails_closed() {
    let id = "fee".to_string();
    let fee = 300_000_000_000_000_000i128;
    let contract = with_escrow(&id, 100_000_000, fee, vec![milestone("only", true)]);
    assert_eq!(
        contract.distribute_escrow_earnings(&id, &SIGNER.to_string(), &PROTOCOL.to_string(), 100_000_000),
        Err(ContractError::InvalidFeeConfiguration)
    );
}

#[test]
fn release_is_gated_on_milestones() {
    let empty = "empty".to_string();
    let contract = with_escrow(&empty, 1_000, 3, vec![]);
    assert_eq!(
        contract.distribute_escrow_earnings(&empty, &SIGNER.to_string(), &PROTOCOL.to_string(), 1_000),
        Err(ContractError::NoMileStoneDefined)
    );
    let partial = "partial".to_string();
    let contract =
        with_escrow(&partial, 1_000, 3, vec![milestone("a", true), milestone("b", false)]);
    assert_eq!(
        contract.distribute_escrow_earnings(&partial, &SIGNER.to_string(), &PROTOCOL.to_string(), 1_000),
        Err(ContractError::EscrowNotCompleted)
    );
}

#[test]
fn release_checks_signer_and_balance() {
    let id = "release".to_string();
    let contract = with_escrow(&id, 1_000, 3, vec![milestone("a", true)]);
    assert_eq!(
        contract.distribute_escrow_earnings(&id, &PROVIDER.to_string(), &PROTOCOL.to_string(), 1_000),
        Err(ContractError::OnlyReleaseSignerCanClaimEarnings)
    );
    assert_eq!(
        contract.distribute_escrow_earnings(&id, &SIGNER.to_string(), &PROTOCOL.to_string(), 999),
        Err(ContractError::EscrowBalanceNotSufficienteToSendEarnings)
    );
    assert_eq!(
        contract.distribute_escrow_earnings(&"missing".to_string(), &SIGNER.to_string(), &PROTOCOL.to_string(), 1_000),
        Err(ContractError::EscrowNotFound)
    );
}

#[test]
fn milestone_roles_are_isolated() {
    let id = "roles".to_string();
    let mut contract = with_escrow(&id, 1_000, 3, two_milestones());
    assert_eq!(
        contract.change_milestone_status(&id, 0, "done".to_string(), &CLIENT.to_string()),
        Err(ContractError::OnlyServiceProviderChangeMilstoneStatus)
    );
    assert_eq!(
        contract.change_milestone_flag(&id, 0, true, &PROVIDER.to_string()),
        Err(ContractError::OnlyClientChangeMilstoneFlag)
    );
    contract.change_milestone_status(&id, 1, "done".to_string(), &PROVIDER.to_string()).unwrap();
    let escrow = contract.get_escrow_by_id(&id).unwrap();
    assert_eq!(escrow.milestones[1].status, "done");
    assert_eq!(escrow.milestones[1].description, "Second milestone");
    assert!(!escrow.milestones[1].flag);
    assert_eq!(escrow.milestones[0], milestone("First milestone", false));
}

#[test]
fn milestone_updates_need_milestones() {
    let id = "none".to_string();
    let mut contract = with_escrow(&id, 1_000, 3, vec![]);
    assert_eq!(
        contract.change_milestone_status(&id, 0, "done".to_string(), &PROVIDER.to_string()),
        Err(ContractError::NoMileStoneDefined)
    );
    assert_eq!(
        contract.change_milestone_flag(&id, 0, true, &CLIENT.to_string()),
        Err(ContractError::NoMileStoneDefined)
    );
}

#[test]
fn dispute_freezes_funding_and_release() {
    let id = "frozen".to_string();
    let mut contract = with_escrow(&id, 1_000, 3, vec![milestone("a", true)]);
    contract.change_dispute_flag(&id, &RESOLVER.to_string()).unwrap();
    assert_eq!(
        contract.fund_escrow(&id, &SIGNER.to_string(), 10, 0, 1_000),
        Err(ContractError::EscrowOpenedForDisputeResolution)
    );
    assert_eq!(
        contract.distribute_escrow_earnings(&id, &SIGNER.to_string(), &PROTOCOL.to_string(), 1_000),
        Err(ContractError::InvalidState)
    );
    // a milestone update leaves the flag set
    contract.change_milestone_flag(&id, 0, false, &CLIENT.to_string()).unwrap();
    assert!(contract.get_escrow_by_id(&id).unwrap().dispute_flag);
}

#[test]
fn amendment_clears_the_dispute_flag() {
    let id = "amend".to_string();
    let mut contract = with_escrow(&id, 1_000, 3, vec![]);
    contract.change_dispute_flag(&id, &RESOLVER.to_string()).unwrap();
    contract
        .change_escrow_properties(
            id.clone(),
            CLIENT.to_string(),
            PROVIDER.to_string(),
            PLATFORM.to_string(),
            2_000,
            4,
            vec![milestone("new", false)],
            SIGNER.to_string(),
            RESOLVER.to_string(),
        )
        .unwrap();
    let escrow = contract.get_escrow_by_id(&id).unwrap();
    assert!(!escrow.dispute_flag);
    let zero = contract.change_escrow_properties(
        id.clone(),
        CLIENT.to_string(),
        PROVIDER.to_string(),
        PLATFORM.to_string(),
        0,
        4,
        vec![],
        SIGNER.to_string(),
        RESOLVER.to_string(),
    );
    assert_eq!(zero, Err(ContractError::AmountCannotBeZero));
    assert_eq!(contract.get_escrow_by_id(&id).unwrap(), escrow);
    assert_eq!(escrow.amount, 2_000);
    assert_eq!(escrow.platform_fee, 4);
}

#[test]
fn repeated_reads_are_identical() {
    let id = "read".to_string();
    let contract = with_escrow(&id, 1_000, 3, two_milestones());
    let first = contract.get_escrow_by_id(&id);
    let second = contract.get_escrow_by_id(&id);
    assert_eq!(first, second);
    assert_eq!(contract.get_escrow_by_id(&"nothing".to_string()), Err(ContractError::EscrowNotFound));
}

#[test]
fn creation_errors() {
    let id = "dup".to_string();
    let mut contract = with_escrow(&id, 1_000, 3, vec![]);
    let again = contract.initialize_escrow(
        id.clone(),
        CLIENT.to_string(),
        PROVIDER.to_string(),
        PLATFORM.to_string(),
        9,
        3,
        vec![],
        SIGNER.to_string(),
        RESOLVER.to_string(),
    );
    assert_eq!(again, Err(ContractError::EscrowAlreadyInitialized));
    assert_eq!(contract.get_escrow_by_id(&id).unwrap().amount, 1_000);
    let zero = contract.initialize_escrow(
        "zero".to_string(),
        CLIENT.to_string(),
        PROVIDER.to_string(),
        PLATFORM.to_string(),
        0,
        3,
        vec![],
        SIGNER.to_string(),
        RESOLVER.to_string(),
    );
    assert_eq!(zero, Err(ContractError::AmountCannotBeZero));
    assert_eq!(contract.get_escrow_by_id(&"zero".to_string()), Err(ContractError::EscrowNotFound));
}

#[test]
fn funding_errors() {
    let id = "fund".to_string();
    let contract = with_escrow(&id, 1_000, 3, vec![]);
    assert_eq!(contract.fund_escrow(&id, &SIGNER.to_string(), 10, 1_001, 1_000), Err(ContractError::EscrowFullyFunded));
    assert_eq!(contract.fund_escrow(&id, &SIGNER.to_string(), 10, 1_000, 9), Err(ContractError::SignerInsufficientFunds));
    assert_eq!(contract.fund_escrow(&id, &SIGNER.to_string(), 1_000, 0, 1_000), Ok(()));
    assert_eq!(contract.fund_escrow(&"x".to_string(), &SIGNER.to_string(), 1, 0, 1), Err(ContractError::EscrowNotFound));
    assert_eq!(
        contract.fund_escrow(&id, &CLIENT.to_string(), 10, 0, 1_000),
        Err(ContractError::OnlySignerCanFundEscrow)
    );
    assert_eq!(contract.fund_escrow(&id, &SIGNER.to_string(), 0, 0, 1_000), Err(ContractError::AmountCannotBeZero));
    assert_eq!(
        contract.fund_escrow(&id, &SIGNER.to_string(), 0, 1_001, 1_000),
        Err(ContractError::EscrowFullyFunded)
    );
    assert_eq!(
        contract.fund_escrow(&id, &SIGNER.to_string(), -10, 0, 1_000),
        Err(ContractError::NegativeAmountNotAllowed)
    );
}

#[test]
fn dispute_errors() {
    let id = "dispute".to_string();
    let mut contract = with_escrow(&id, 1_000, 3, vec![]);
    assert_eq!(
        contract.resolving_disputes(&id, &RESOLVER.to_string(), 1, 1, 1_000),
        Err(ContractError::EscrowNotInDispute)
    );
    assert_eq!(
        contract.change_dispute_flag(&id, &CLIENT.to_string()),
        Err(ContractError::OnlyDisputeResolverCanExecuteThisFunction)
    );
    contract.change_dispute_flag(&id, &RESOLVER.to_string()).unwrap();
    assert_eq!(
        contract.change_dispute_flag(&id, &RESOLVER.to_string()),
        Err(ContractError::EscrowAlreadyInDispute)
    );
    assert_eq!(
        contract.resolving_disputes(&id, &CLIENT.to_string(), 1, 1, 1_000),
        Err(ContractError::OnlyDisputeResolverCanExecuteThisFunction)
    );
    assert_eq!(
        contract.resolving_disputes(&id, &RESOLVER.to_string(), 600, 401, 1_000),
        Err(ContractError::InsufficientFundsForResolution)
    );
    assert_eq!(
        contract.resolving_disputes(&id, &RESOLVER.to_string(), i128::MAX, i128::MAX, 1_000),
        Err(ContractError::InsufficientFundsForResolution)
    );
    // a split above the balance is refused as such, whatever the signs
    assert_eq!(
        contract.resolving_disputes(&id, &RESOLVER.to_string(), -5, 10, 4),
        Err(ContractError::InsufficientFundsForResolution)
    );
    // a negative share cannot make room for a larger one
    assert_eq!(
        contract.resolving_disputes(&id, &RESOLVER.to_string(), 50, -30, 20),
        Err(ContractError::NegativeAmountNotAllowed)
    );
    assert_eq!(
        contract.resolving_disputes(&id, &RESOLVER.to_string(), i128::MIN, i128::MIN, 1_000),
        Err(ContractError::NegativeAmountNotAllowed)
    );
    // the resolver may leave a remainder, and a zero share is not paid out
    assert_eq!(
        contract.resolving_disputes(&id, &RESOLVER.to_string(), 0, 700, 1_000),
        Ok(vec![payout(PROVIDER, 700)])
    );
}

#[test]
fn users_register_once() {
    let mut contract = EngagementContract::new();
    assert!(contract.register_user("GALICE".to_string(), "Alice".to_string(), "a@x.io".to_string(), 10, 7));
    assert!(!contract.register_user("GALICE".to_string(), "Other".to_string(), "o@x.io".to_string(), 11, 8));
    assert!(contract.register_user("GBOB".to_string(), "Bob".to_string(), "b@x.io".to_string(), 12, 9));
    assert_eq!(contract.user_count(), 2);
    assert_eq!(contract.login(&"GALICE".to_string()), "Alice");
    assert_eq!(contract.login(&"GBOB".to_string()), "Bob");
    assert_eq!(contract.login(&"GCAROL".to_string()), "User not found");
}

#[test]
fn error_messages() {
    assert_eq!(ContractError::EscrowNotFound.message(), "Escrow not found");
    assert_eq!(
        ContractError::EscrowFullyFunded.message(),
        "This escrow is already fully funded"
    );
}

#[test]
fn store_replaces_by_id() {
    let mut store = EscrowStore::new();
    let record = Escrow {
        engagement_id: "s".to_string(),
        client: CLIENT.to_string(),
        service_provider: PROVIDER.to_string(),
        platform_address: PLATFORM.to_string(),
        amount: 5,
        platform_fee: 1,
        milestones: vec![],
        release_signer: SIGNER.to_string(),
        dispute_resolver: RESOLVER.to_string(),
        dispute_flag: false,
    };
    assert!(!store.has(&"s".to_string()));
    store.set(record.clone());
    let mut changed = record.clone();
    changed.amount = 6;
    store.set(changed.clone());
    assert_eq!(store.get(&"s".to_string()), Some(&changed));
    assert!(store.get(&"t".to_string()).is_none());
}
