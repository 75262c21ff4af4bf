use vstd::prelude::*;

verus! {

/// An account identity as the ledger writes it (its textual key).
pub type AccountId = String;

/// One unit of deliverable work inside an escrow.
#[derive(Debug, Clone, PartialEq, Eq)]
pub struct Milestone {
    /// Set at creation and never changed afterwards.
    pub description: String,
    /// Free-form progress label, changed only by the service provider.
    pub status: String,
    /// Completion mark, changed only by the client.
    pub flag: bool,
}

/// The mathematical value of a [`Milestone`].
pub struct MilestoneView {
    pub description: Seq<char>,
    pub status: Seq<char>,
    pub flag: bool,
}

impl View for Milestone {
    type V = MilestoneView;

    open spec fn view(&self) -> MilestoneView {
        MilestoneView { description: self.description@, status: self.status@, flag: self.flag }
    }
}

/// The views of a list of milestones, in order.
pub open spec fn milestones_view(ms: Seq<Milestone>) -> Seq<MilestoneView> {
    ms.map_values(|m: Milestone| m@)
}

impl Milestone {
    /// A field-by-field copy.
    pub fn duplicate(&self) -> (r: Milestone)
        ensures
            r@ == self@,
    {
        Milestone {
            description: self.description.clone(),
            status: self.status.clone(),
            flag: self.flag,
        }
    }
}

/// Copies a list of milestones, element by element.
pub fn duplicate_milestones(ms: &Vec<Milestone>) -> (r: Vec<Milestone>)
    ensures
        milestones_view(r@) == milestones_view(ms@),
{
    let mut r: Vec<Milestone> = Vec::new();
    let mut i: usize = 0;
    while i < ms.len()
        invariant
            i <= ms@.len(),
            r@.len() == i,
            forall|k: int| 0 <= k < i ==> #[trigger] r@[k]@ == ms@[k]@,
        decreases ms@.len() - i,
    {
        r.push(ms[i].duplicate());
        i = i + 1;
    }
    assert(milestones_view(r@) =~= milestones_view(ms@));
    r
}

/// The escrow record of one engagement.
#[derive(Debug, Clone, PartialEq, Eq)]
pub struct Escrow {
    pub engagement_id: String,
    pub client: AccountId,
    pub service_provider: AccountId,
    pub platform_address: AccountId,
    /// Total value of the engagement, in the asset's smallest unit.
    pub amount: i128,
    /// Platform commission rate, in whole percent of `amount`.
    pub platform_fee: i128,
    pub milestones: Vec<Milestone>,
    pub release_signer: AccountId,
    pub dispute_resolver: AccountId,
    /// True while the escrow is frozen for arbitration.
    pub dispute_flag: bool,
}

/// The mathematical value of an [`Escrow`].
pub struct EscrowView {
    pub engagement_id: Seq<char>,
    pub client: Seq<char>,
    pub service_provider: Seq<char>,
    pub platform_address: Seq<char>,
    pub amount: int,
    pub platform_fee: int,
    pub milestones: Seq<MilestoneView>,
    pub release_signer: Seq<char>,
    pub dispute_resolver: Seq<char>,
    pub dispute_flag: bool,
}

impl View for Escrow {
    type V = EscrowView;

    open spec fn view(&self) -> EscrowView {
        EscrowView {
            engagement_id: self.engagement_id@,
            client: self.client@,
            service_provider: self.service_provider@,
            platform_address: self.platform_address@,
            amount: self.amount as int,
            platform_fee: self.platform_fee as int,
            milestones: milestones_view(self.milestones@),
            release_signer: self.release_signer@,
            dispute_resolver: self.dispute_resolver@,
            dispute_flag: self.dispute_flag,
        }
    }
}

/// Every milestone of the list has been marked complete.
pub open spec fn all_flagged(ms: Seq<MilestoneView>) -> bool {
    forall|i: int| 0 <= i < ms.len() ==> #[trigger] ms[i].flag
}

impl EscrowView {
    /// Every milestone has been marked complete by the client.
    pub open spec fn all_milestones_flagged(self) -> bool {
        all_flagged(self.milestones)
    }
}

/// Whether every milestone of the list has been marked complete.
pub fn milestones_all_flagged(ms: &Vec<Milestone>) -> (r: bool)
    ensures
        r == all_flagged(milestones_view(ms@)),
{
    let ghost views = milestones_view(ms@);
    let mut i: usize = 0;
    while i < ms.len()
        invariant
            i <= ms@.len(),
            views == milestones_view(ms@),
            forall|k: int| 0 <= k < i ==> #[trigger] views[k].flag,
        decreases ms@.len() - i,
    {
        if !ms[i].flag {
            assert(!views[i as int].flag);
            return false;
        }
        i = i + 1;
    }
    true
}

impl Escrow {
    /// A field-by-field copy.
    pub fn duplicate(&self) -> (r: Escrow)
        ensures
            r@ == self@,
    {
        Escrow {
            engagement_id: self.engagement_id.clone(),
            client: self.client.clone(),
            service_provider: self.service_provider.clone(),
            platform_address: self.platform_address.clone(),
            amount: self.amount,
            platform_fee: self.platform_fee,
            milestones: duplicate_milestones(&self.milestones),
            release_signer: self.release_signer.clone(),
            dispute_resolver: self.dispute_resolver.clone(),
            dispute_flag: self.dispute_flag,
        }
    }
}

/// A movement of funds out of the contract's custody.
#[derive(Debug, Clone, PartialEq, Eq)]
pub struct Payout {
    pub recipient: AccountId,
    pub amount: i128,
}

/// The mathematical value of a [`Payout`].
pub struct PayoutView {
    pub recipient: Seq<char>,
    pub amount: int,
}

impl View for Payout {
    type V = PayoutView;

    open spec fn view(&self) -> PayoutView {
        PayoutView { recipient: self.recipient@, amount: self.amount as int }
    }
}

/// The views of a list of payouts, in order.
pub open spec fn payouts_view(ps: Seq<Payout>) -> Seq<PayoutView> {
    ps.map_values(|p: Payout| p@)
}

/// The sum of the amounts of a list of payouts.
pub open spec fn payout_total(ps: Seq<PayoutView>) -> int
    decreases ps.len(),
{
    if ps.len() == 0 {
        0
    } else {
        payout_total(ps.drop_last()) + ps.last().amount
    }
}

/// One party's share of a multi-party engagement: its price, what has been
/// paid towards it as the first half, and whether it is settled.
#[derive(Debug, Clone, Copy, PartialEq, Eq, Structural)]
pub struct Objective {
    pub price: u128,
    pub half_paid: u128,
    pub completed: bool,
}

/// A spending allowance granted by one account to another.
#[derive(Debug, Clone, Copy, PartialEq, Eq, Structural)]
pub struct AllowanceValue {
    pub amount: i128,
    pub expiration_ledger: u32,
}

} // verus!
