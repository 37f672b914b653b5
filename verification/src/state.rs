//! The data model: one escrow agreement (`TrustPay`) owning its ordered
//! milestones, and the deployment-wide aggregate counters (`GlobalState`).
//!
//! Account identities are opaque `u64` ids: the engine only compares them and
//! never authenticates them. Timestamps are `i64` seconds.

use vstd::prelude::*;

use crate::constants::{
    CONTRACT_STATUS_COMPLETED, CONTRACT_STATUS_DISPUTED, CONTRACT_STATUS_IN_PROGRESS,
    CONTRACT_STATUS_PENDING, CONTRACT_TYPE_MILESTONE, CONTRACT_TYPE_ONE_TIME, FEE_BASIS_POINTS,
    MILESTONE_STATUS_APPROVED_BY_PAYER, MILESTONE_STATUS_COMPLETED_BY_SP,
    MILESTONE_STATUS_DISPUTED, MILESTONE_STATUS_PENDING,
};
use crate::fees::fee_of;

verus! {

/// A sub-deliverable with its own amount and independent approval lifecycle.
pub struct Milestone {
    pub description: String,
    pub amount: u64,
    pub status: u8,
    pub completed_at: Option<i64>,
    pub approved_at: Option<i64>,
    pub dispute_reason: Option<String>,
    pub dispute_id: Option<String>,
}

/// One escrow agreement between a payer and a recipient for a job.
pub struct TrustPay {
    /// `CONTRACT_TYPE_ONE_TIME` or `CONTRACT_TYPE_MILESTONE`.
    pub contract_type: u8,
    /// Caller-chosen value distinguishing agreements of the same payer.
    pub seed: u64,
    /// The client who funds the escrow.
    pub payer: u64,
    /// The worker who delivers the milestones.
    pub recipient: u64,
    /// The asset all amounts are denominated in.
    pub mint: u64,
    pub title: String,
    pub terms_and_conditions: String,
    pub total_contract_amount: u64,
    /// Absolute expiry timestamp, set once the payer has funded the escrow.
    pub deadline: Option<u64>,
    pub acceptance_timestamp: Option<i64>,
    pub contract_status: u8,
    /// Fee rate in basis points, fixed at creation.
    pub fee_percentage: u16,
    /// Where collected fees are sent.
    pub fee_destination: u64,
    /// Fee on the total amount, precomputed at creation.
    pub fee: u64,
    /// 1 to 10 milestones, ordered and index-addressed, immutable amounts.
    pub milestones: Vec<Milestone>,
}

/// Deployment-wide aggregate counters, created lazily by the first
/// contract-creation call and shared by every agreement afterwards.
#[derive(Clone, Copy, Debug, PartialEq, Eq, Structural)]
pub struct GlobalState {
    /// The trusted resolver, fixed when the state is first initialized.
    pub authority: u64,
    pub total_trust_pay_created: u64,
    pub total_trust_pay_closed: u64,
    pub total_confirmations: u64,
    pub fee_percentage: u16,
    pub fee_destination: u64,
    pub total_fees_collected: u64,
    pub total_disputes: u64,
    pub total_volume: u64,
    pub token_decimals: u8,
    /// Running maximum of `total_volume` over time.
    pub high_watermark_volume: u64,
    pub last_volume_update: i64,
}

impl Default for GlobalState {
    /// The all-zero value that stands for a not-yet-initialized state.
    fn default() -> (r: Self)
        ensures
            r == GlobalState::uninitialized(),
    {
        GlobalState {
            authority: 0,
            total_trust_pay_created: 0,
            total_trust_pay_closed: 0,
            total_confirmations: 0,
            fee_percentage: 0,
            fee_destination: 0,
            total_fees_collected: 0,
            total_disputes: 0,
            total_volume: 0,
            token_decimals: 0,
            high_watermark_volume: 0,
            last_volume_update: 0,
        }
    }
}

impl GlobalState {
    /// The all-zero value that stands for a not-yet-initialized state.
    pub open spec fn uninitialized() -> GlobalState {
        GlobalState {
            authority: 0,
            total_trust_pay_created: 0,
            total_trust_pay_closed: 0,
            total_confirmations: 0,
            fee_percentage: 0,
            fee_destination: 0,
            total_fees_collected: 0,
            total_disputes: 0,
            total_volume: 0,
            token_decimals: 0,
            high_watermark_volume: 0,
            last_volume_update: 0,
        }
    }
}

/// Sum of all milestone amounts.
pub open spec fn milestone_sum(ms: Seq<Milestone>) -> int
    decreases ms.len(),
{
    if ms.len() == 0 {
        0
    } else {
        milestone_sum(ms.drop_last()) + ms.last().amount
    }
}

/// Sum of the amounts of the milestones approved by the payer.
pub open spec fn approved_sum(ms: Seq<Milestone>) -> int
    decreases ms.len(),
{
    if ms.len() == 0 {
        0
    } else {
        approved_sum(ms.drop_last()) + if ms.last().status == MILESTONE_STATUS_APPROVED_BY_PAYER {
            ms.last().amount as int
        } else {
            0
        }
    }
}

/// Every milestone has been approved by the payer.
pub open spec fn all_milestones_approved(ms: Seq<Milestone>) -> bool {
    forall|i: int|
        0 <= i < ms.len() ==> #[trigger] ms[i].status == MILESTONE_STATUS_APPROVED_BY_PAYER
}

/// Every milestone is settled: approved by the payer, or resting at pending
/// (never attempted, or resolved with no further payment owed).
pub open spec fn all_milestones_resolved(ms: Seq<Milestone>) -> bool {
    forall|i: int|
        0 <= i < ms.len() ==> (#[trigger] ms[i].status == MILESTONE_STATUS_APPROVED_BY_PAYER
            || ms[i].status == MILESTONE_STATUS_PENDING)
}

/// Some milestone is under dispute.
pub open spec fn any_milestone_disputed(ms: Seq<Milestone>) -> bool {
    exists|i: int| 0 <= i < ms.len() && #[trigger] ms[i].status == MILESTONE_STATUS_DISPUTED
}

/// No two distinct milestones are under dispute at once.
pub open spec fn at_most_one_disputed(ms: Seq<Milestone>) -> bool {
    forall|i: int, j: int|
        0 <= i < ms.len() && 0 <= j < ms.len() && #[trigger] ms[i].status
            == MILESTONE_STATUS_DISPUTED && #[trigger] ms[j].status == MILESTONE_STATUS_DISPUTED
            ==> i == j
}

/// Every milestone status is one of the four named codes.
pub open spec fn milestone_statuses_valid(ms: Seq<Milestone>) -> bool {
    forall|i: int|
        0 <= i < ms.len() ==> (#[trigger] ms[i].status == MILESTONE_STATUS_PENDING
            || ms[i].status == MILESTONE_STATUS_COMPLETED_BY_SP
            || ms[i].status == MILESTONE_STATUS_APPROVED_BY_PAYER
            || ms[i].status == MILESTONE_STATUS_DISPUTED)
}

impl TrustPay {
    /// Well-formedness of a live record. Creation establishes it and every
    /// operation preserves it.
    pub open spec fn wf(self) -> bool {
        &&& (self.contract_type == CONTRACT_TYPE_ONE_TIME || self.contract_type
            == CONTRACT_TYPE_MILESTONE)
        &&& 1 <= self.milestones@.len() <= 10
        &&& self.total_contract_amount > 0
        &&& milestone_sum(self.milestones@) == self.total_contract_amount
        &&& self.fee_percentage == FEE_BASIS_POINTS
        &&& self.fee == fee_of(self.total_contract_amount)
        &&& milestone_statuses_valid(self.milestones@)
        &&& at_most_one_disputed(self.milestones@)
        &&& (self.contract_status == CONTRACT_STATUS_PENDING || self.contract_status
            == CONTRACT_STATUS_IN_PROGRESS || self.contract_status == CONTRACT_STATUS_DISPUTED
            || self.contract_status == CONTRACT_STATUS_COMPLETED)
        &&& self.contract_status == CONTRACT_STATUS_PENDING ==> (self.deadline is None
            && self.acceptance_timestamp is None && forall|i: int|
            0 <= i < self.milestones@.len() ==> #[trigger] self.milestones@[i].status
                == MILESTONE_STATUS_PENDING)
        &&& (self.contract_status == CONTRACT_STATUS_IN_PROGRESS || self.contract_status
            == CONTRACT_STATUS_DISPUTED) ==> (self.deadline is Some
            && self.acceptance_timestamp is Some)
        &&& self.contract_status == CONTRACT_STATUS_DISPUTED ==> any_milestone_disputed(
            self.milestones@,
        )
        &&& self.contract_status != CONTRACT_STATUS_DISPUTED ==> !any_milestone_disputed(
            self.milestones@,
        )
        &&& self.contract_status == CONTRACT_STATUS_COMPLETED ==> all_milestones_resolved(
            self.milestones@,
        )
    }

    /// Whether every milestone has been approved by the payer.
    pub fn is_all_milestones_approved(&self) -> (r: bool)
        ensures
            r == all_milestones_approved(self.milestones@),
    {
        let n = self.milestones.len();
        let mut i: usize = 0;
        while i < n
            invariant
                n == self.milestones@.len(),
                0 <= i <= n,
                forall|j: int|
                    0 <= j < i ==> #[trigger] self.milestones@[j].status
                        == MILESTONE_STATUS_APPROVED_BY_PAYER,
            decreases n - i,
        {
            if self.milestones[i].status != MILESTONE_STATUS_APPROVED_BY_PAYER {
                return false;
            }
            i = i + 1;
        }
        true
    }

    /// Total amount already approved for payment to the recipient.
    pub fn get_total_approved_amount(&self) -> (r: u64)
        requires
            milestone_sum(self.milestones@) <= u64::MAX,
        ensures
            r == approved_sum(self.milestones@),
    {
        proof {
            lemma_sums_nonneg_and_bounded(self.milestones@);
        }
        let n = self.milestones.len();
        let mut total: u64 = 0;
        let mut i: usize = 0;
        while i < n
            invariant
                n == self.milestones@.len(),
                0 <= i <= n,
                milestone_sum(self.milestones@) <= u64::MAX,
                total == approved_sum(self.milestones@.take(i as int)),
            decreases n - i,
        {
            proof {
                assert(self.milestones@.take(i + 1).drop_last() =~= self.milestones@.take(i as int));
                assert(self.milestones@.take(i + 1).last() == self.milestones@[i as int]);
                lemma_sums_nonneg_and_bounded(self.milestones@.take(i + 1));
                lemma_milestone_sum_take_le(self.milestones@, i + 1);
            }
            if self.milestones[i].status == MILESTONE_STATUS_APPROVED_BY_PAYER {
                total = total + self.milestones[i].amount;
            }
            i = i + 1;
        }
        proof {
            assert(self.milestones@.take(n as int) =~= self.milestones@);
        }
        total
    }

    /// Amount not yet approved: the total minus the approved sum, floored at
    /// zero.
    pub fn get_remaining_amount(&self) -> (r: u64)
        requires
            milestone_sum(self.milestones@) <= u64::MAX,
        ensures
            r == if approved_sum(self.milestones@) <= self.total_contract_amount {
                self.total_contract_amount - approved_sum(self.milestones@)
            } else {
                0
            },
    {
        let approved_amount = self.get_total_approved_amount();
        if approved_amount <= self.total_contract_amount {
            self.total_contract_amount - approved_amount
        } else {
            0
        }
    }

    /// Whether some milestone is under dispute.
    pub fn has_active_disputes(&self) -> (r: bool)
        ensures
            r == any_milestone_disputed(self.milestones@),
    {
        let n = self.milestones.len();
        let mut i: usize = 0;
        while i < n
            invariant
                n == self.milestones@.len(),
                0 <= i <= n,
                forall|j: int|
                    0 <= j < i ==> #[trigger] self.milestones@[j].status
                        != MILESTONE_STATUS_DISPUTED,
            decreases n - i,
        {
            if self.milestones[i].status == MILESTONE_STATUS_DISPUTED {
                return true;
            }
            i = i + 1;
        }
        false
    }
}

/// A well-formed agreement stands completed only when every milestone rests
/// settled: approved by the payer or pending, with none disputed or still
/// awaiting the payer's approval.
pub proof fn lemma_completed_only_when_settled(c: TrustPay)
    requires
        c.wf(),
        c.contract_status == CONTRACT_STATUS_COMPLETED,
    ensures
        all_milestones_resolved(c.milestones@),
        !any_milestone_disputed(c.milestones@),
{
    assert forall|i: int|
        0 <= i < c.milestones@.len() implies #[trigger] c.milestones@[i].status
        != MILESTONE_STATUS_DISPUTED by {
        assert(c.milestones@[i].status == MILESTONE_STATUS_APPROVED_BY_PAYER
            || c.milestones@[i].status == MILESTONE_STATUS_PENDING);
    };
}

/// Both sums are non-negative and the approved part never exceeds the whole.
pub proof fn lemma_sums_nonneg_and_bounded(ms: Seq<Milestone>)
    ensures
        0 <= approved_sum(ms) <= milestone_sum(ms),
    decreases ms.len(),
{
    if ms.len() > 0 {
        lemma_sums_nonneg_and_bounded(ms.drop_last());
    }
}

/// A prefix of the milestones never sums to more than all of them.
pub proof fn lemma_milestone_sum_take_le(ms: Seq<Milestone>, i: int)
    requires
        0 <= i <= ms.len(),
    ensures
        milestone_sum(ms.take(i)) <= milestone_sum(ms),
    decreases ms.len() - i,
{
    if i == ms.len() {
        assert(ms.take(i) =~= ms);
    } else {
        assert(ms.take(i + 1).drop_last() =~= ms.take(i));
        lemma_milestone_sum_take_le(ms, i + 1);
    }
}

/// Replacing one milestone with one of the same amount keeps the sum.
pub proof fn lemma_milestone_sum_update_same_amount(ms: Seq<Milestone>, i: int, m: Milestone)
    requires
        0 <= i < ms.len(),
        m.amount == ms[i].amount,
    ensures
        milestone_sum(ms.update(i, m)) == milestone_sum(ms),
    decreases ms.len(),
{
    if i == ms.len() - 1 {
        assert(ms.update(i, m).drop_last() =~= ms.drop_last());
    } else {
        assert(ms.update(i, m).drop_last() =~= ms.drop_last().update(i, m));
        lemma_milestone_sum_update_same_amount(ms.drop_last(), i, m);
    }
}

} // verus!
