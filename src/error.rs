use vstd::prelude::*;

verus! {

/// Every way an escrow operation can be refused. The variants are listed in
/// the order of their published wire codes: the first one is code 1.
#[derive(Debug, Clone, Copy, PartialEq, Eq, Structural)]
pub enum ContractError {
    EscrowNotFunded,
    AmountCannotBeZero,
    EscrowAlreadyInitialized,
    OnlySignerCanFundEscrow,
    EscrowAlreadyFunded,
    EscrowFullyFunded,
    SignerInsufficientFunds,
    NotEnoughAllowance,
    OnlySignerCanCompleteEscrow,
    EscrowAlreadyCompleted,
    SignerInsufficientFundsToComplete,
    OnlyServiceProviderCanCancelEscrow,
    EscrowAlreadyCancelled,
    OnlySignerCanRequestRefund,
    EscrowNotCancelled,
    NoFundsToRefund,
    ContractHasInsufficientBalance,
    EscrowNotFound,
    OnlyServiceProviderCanClaimEarnings,
    EscrowNotCompleted,
    EscrowBalanceNotSufficienteToSendEarnings,
    ContractInsufficientFunds,
    OnlyPlatformAddressExecuteThisFunction,
    EscrowOpenedForDisputeResolution,
    AmountToDepositGreatherThanEscrowAmount,
    OnlyReleaseSignerCanClaimEarnings,
    NoMileStoneDefined,
    InvalidState,
    EscrowNotInitialized,
    OnlyServiceProviderChangeMilstoneStatus,
    OnlyClientChangeMilstoneFlag,
    InvalidMileStoneIndex,
    OnlyDisputeResolverCanExecuteThisFunction,
    EscrowNotInDispute,
    InsufficientFundsForResolution,
    EscrowAlreadyInDispute,
    InvalidFeeConfiguration,
    NegativeAmountNotAllowed,
}

/// The human-readable text of an error.
pub open spec fn error_message(e: ContractError) -> Seq<char> {
    match e {
        ContractError::EscrowNotFunded => "Escrow not funded"@,
        ContractError::AmountCannotBeZero => "Amount cannot be zero"@,
        ContractError::EscrowAlreadyInitialized => "Escrow already initialized"@,
        ContractError::OnlySignerCanFundEscrow => "Only the signer can fund the escrow"@,
        ContractError::EscrowAlreadyFunded => "Escrow already funded"@,
        ContractError::EscrowFullyFunded => "This escrow is already fully funded"@,
        ContractError::SignerInsufficientFunds => "The signer does not have sufficient funds"@,
        ContractError::NotEnoughAllowance => "Not enough allowance to fund this escrow"@,
        ContractError::OnlySignerCanCompleteEscrow => "Only the signer can complete the escrow"@,
        ContractError::EscrowAlreadyCompleted => "Escrow already completed"@,
        ContractError::SignerInsufficientFundsToComplete => "The signer does not have sufficient funds to complete this escrow"@,
        ContractError::OnlyServiceProviderCanCancelEscrow => "Only the service provider can cancel the escrow"@,
        ContractError::EscrowAlreadyCancelled => "The escrow has already been cancelled"@,
        ContractError::OnlySignerCanRequestRefund => "Only the signer can request a refund"@,
        ContractError::EscrowNotCancelled => "The escrow must be cancelled to refund the amounts"@,
        ContractError::NoFundsToRefund => "No funds available to refund"@,
        ContractError::ContractHasInsufficientBalance => "The contract has no balance to repay"@,
        ContractError::EscrowNotFound => "Escrow not found"@,
        ContractError::OnlyServiceProviderCanClaimEarnings => "Only the service provider can claim escrow earnings"@,
        ContractError::EscrowNotCompleted => "The escrow must be completed to claim earnings"@,
        ContractError::EscrowBalanceNotSufficienteToSendEarnings => "The escrow balance must be equal to the amount of earnings defined for the escrow"@,
        ContractError::ContractInsufficientFunds => "The contract does not have sufficient funds"@,
        ContractError::OnlyPlatformAddressExecuteThisFunction => "Only the plataform address should be able to execute this function"@,
        ContractError::EscrowOpenedForDisputeResolution => "The escrow is open for dispute resolution"@,
        ContractError::AmountToDepositGreatherThanEscrowAmount => "The amount to deposit is greater than the escrow amount"@,
        ContractError::OnlyReleaseSignerCanClaimEarnings => "Only the release signer can release the escrow earnings"@,
        ContractError::NoMileStoneDefined => "The escrow has no milestones defined"@,
        ContractError::InvalidState => "The escrow is in a state that does not allow this operation"@,
        ContractError::EscrowNotInitialized => "Escrow not initialized"@,
        ContractError::OnlyServiceProviderChangeMilstoneStatus => "Only the service provider can change the milestone status"@,
        ContractError::OnlyClientChangeMilstoneFlag => "Only the client can change the milestone flag"@,
        ContractError::InvalidMileStoneIndex => "Invalid milestone index"@,
        ContractError::OnlyDisputeResolverCanExecuteThisFunction => "Only the dispute resolver can execute this function"@,
        ContractError::EscrowNotInDispute => "The escrow is not in dispute"@,
        ContractError::InsufficientFundsForResolution => "The contract does not hold enough funds for this resolution"@,
        ContractError::EscrowAlreadyInDispute => "The escrow is already in dispute"@,
        ContractError::InvalidFeeConfiguration => "The escrow amount and fee configuration do not leave every party a non-negative share"@,
        ContractError::NegativeAmountNotAllowed => "Amounts cannot be negative"@,
    }
}

impl ContractError {
    /// The text shown to a person for this error.
    pub fn message(&self) -> (r: &'static str)
        ensures
            r@ == error_message(*self),
    {
        match self {
            ContractError::EscrowNotFunded => "Escrow not funded",
            ContractError::AmountCannotBeZero => "Amount cannot be zero",
            ContractError::EscrowAlreadyInitialized => "Escrow already initialized",
            ContractError::OnlySignerCanFundEscrow => "Only the signer can fund the escrow",
            ContractError::EscrowAlreadyFunded => "Escrow already funded",
            ContractError::EscrowFullyFunded => "This escrow is already fully funded",
            ContractError::SignerInsufficientFunds => "The signer does not have sufficient funds",
            ContractError::NotEnoughAllowance => "Not enough allowance to fund this escrow",
            ContractError::OnlySignerCanCompleteEscrow => "Only the signer can complete the escrow",
            ContractError::EscrowAlreadyCompleted => "Escrow already completed",
            ContractError::SignerInsufficientFundsToComplete => "The signer does not have sufficient funds to complete this escrow",
            ContractError::OnlyServiceProviderCanCancelEscrow => "Only the service provider can cancel the escrow",
            ContractError::EscrowAlreadyCancelled => "The escrow has already been cancelled",
            ContractError::OnlySignerCanRequestRefund => "Only the signer can request a refund",
            ContractError::EscrowNotCancelled => "The escrow must be cancelled to refund the amounts",
            ContractError::NoFundsToRefund => "No funds available to refund",
            ContractError::ContractHasInsufficientBalance => "The contract has no balance to repay",
            ContractError::EscrowNotFound => "Escrow not found",
            ContractError::OnlyServiceProviderCanClaimEarnings => "Only the service provider can claim escrow earnings",
            ContractError::EscrowNotCompleted => "The escrow must be completed to claim earnings",
            ContractError::EscrowBalanceNotSufficienteToSendEarnings => "The escrow balance must be equal to the amount of earnings defined for the escrow",
            ContractError::ContractInsufficientFunds => "The contract does not have sufficient funds",
            ContractError::OnlyPlatformAddressExecuteThisFunction => "Only the plataform address should be able to execute this function",
            ContractError::EscrowOpenedForDisputeResolution => "The escrow is open for dispute resolution",
            ContractError::AmountToDepositGreatherThanEscrowAmount => "The amount to deposit is greater than the escrow amount",
            ContractError::OnlyReleaseSignerCanClaimEarnings => "Only the release signer can release the escrow earnings",
            ContractError::NoMileStoneDefined => "The escrow has no milestones defined",
            ContractError::InvalidState => "The escrow is in a state that does not allow this operation",
            ContractError::EscrowNotInitialized => "Escrow not initialized",
            ContractError::OnlyServiceProviderChangeMilstoneStatus => "Only the service provider can change the milestone status",
            ContractError::OnlyClientChangeMilstoneFlag => "Only the client can change the milestone flag",
            ContractError::InvalidMileStoneIndex => "Invalid milestone index",
            ContractError::OnlyDisputeResolverCanExecuteThisFunction => "Only the dispute resolver can execute this function",
            ContractError::EscrowNotInDispute => "The escrow is not in dispute",
            ContractError::InsufficientFundsForResolution => "The contract does not hold enough funds for this resolution",
            ContractError::EscrowAlreadyInDispute => "The escrow is already in dispute",
            ContractError::InvalidFeeConfiguration => "The escrow amount and fee configuration do not leave every party a non-negative share",
            ContractError::NegativeAmountNotAllowed => "Amounts cannot be negative",
        }
    }
}

} // verus!
