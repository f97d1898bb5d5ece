//! The position record and the two quantities derived from it.

use vstd::prelude::*;

verus! {

/// A lending position.
///
/// All five fields are plain integers that may be set independently; no
/// combination is invalid. In particular `ltv_limit_percent` is read as a
/// percentage but is not confined to `0..=100`: a larger value simply scales
/// the collateral further.
#[derive(Debug, Clone, Copy, PartialEq, Eq, Structural)]
pub struct ShieldedPosition {
    /// Opaque identifier of the owner.
    pub owner_id: u64,
    /// Value of the posted collateral.
    pub collateral_value: u64,
    /// Credit score of the owner.
    pub credit_score: u64,
    /// Amount currently owed.
    pub current_debt: u64,
    /// Loan-to-value limit, in percent.
    pub ltv_limit_percent: u64,
}

impl ShieldedPosition {
    /// The capacity formula over the mathematical integers:
    /// `collateral_value * ltv_limit_percent / 100 + credit_score * 2`,
    /// where the division discards the remainder.
    ///
    /// Nothing overflows here, so the value may exceed `u64::MAX`.
    pub open spec fn exact_capacity(&self) -> int {
        (self.collateral_value * self.ltv_limit_percent) / 100 + self.credit_score * 2
    }

    /// The capacity as a `u64`: [`Self::exact_capacity`] where that fits, and
    /// `u64::MAX` where it does not.
    pub open spec fn spec_total_capacity(&self) -> u64 {
        if self.exact_capacity() <= u64::MAX {
            self.exact_capacity() as u64
        } else {
            u64::MAX
        }
    }

    /// A position is liquidatable when its debt strictly exceeds its capacity.
    pub open spec fn spec_is_liquidatable(&self) -> bool {
        self.current_debt > self.exact_capacity()
    }

    /// Total borrowing capacity:
    /// `collateral_value * ltv_limit_percent / 100 + credit_score * 2`.
    ///
    /// The formula is evaluated exactly, in 128-bit arithmetic, with a
    /// truncating division; neither multiplication can wrap. Only the final
    /// result is narrowed: a capacity above `u64::MAX` is reported as
    /// `u64::MAX`.
    pub fn calculate_total_capacity(&self) -> (capacity: u64)
        ensures
            capacity == self.spec_total_capacity(),
            self.exact_capacity() <= u64::MAX ==> capacity == self.exact_capacity(),
            self.exact_capacity() > u64::MAX ==> capacity == u64::MAX,
    {
        assert(self.collateral_value * self.ltv_limit_percent <= u64::MAX * u64::MAX)
            by (nonlinear_arith);
        let product: u128 = (self.collateral_value as u128) * (self.ltv_limit_percent as u128);
        let base: u128 = product / 100;
        let bonus: u128 = (self.credit_score as u128) * 2;
        let total: u128 = base + bonus;
        if total > u64::MAX as u128 {
            u64::MAX
        } else {
            total as u64
        }
    }

    /// Whether the position is eligible for liquidation: the debt is strictly
    /// greater than the capacity. A debt equal to the capacity is not.
    ///
    /// Saturation of the capacity never changes the answer: a debt is at most
    /// `u64::MAX`, so it exceeds the reported capacity exactly when it exceeds
    /// the exact one.
    pub fn is_liquidatable(&self) -> (liquidatable: bool)
        ensures
            liquidatable == self.spec_is_liquidatable(),
            liquidatable == (self.current_debt > self.spec_total_capacity()),
    {
        self.current_debt > self.calculate_total_capacity()
    }
}

/// Liquidation is decided by the reported capacity, strictly: a position is
/// liquidatable exactly when its debt is greater than the capacity that
/// [`ShieldedPosition::calculate_total_capacity`] reports. A debt equal to
/// that capacity, or below it, is not.
pub proof fn lemma_liquidatable_iff_debt_exceeds_capacity(position: ShieldedPosition)
    ensures
        position.spec_is_liquidatable() <==> position.current_debt
            > position.spec_total_capacity(),
        position.current_debt <= position.spec_total_capacity()
            ==> !position.spec_is_liquidatable(),
{
}

/// Evaluation is repeatable: whatever two calls on one record return, they
/// return the same, namely what the record's fields determine.
pub proof fn lemma_evaluation_is_repeatable(
    position: ShieldedPosition,
    first_capacity: u64,
    second_capacity: u64,
    first_verdict: bool,
    second_verdict: bool,
)
    requires
        call_ensures(ShieldedPosition::calculate_total_capacity, (&position,), first_capacity),
        call_ensures(ShieldedPosition::calculate_total_capacity, (&position,), second_capacity),
        call_ensures(ShieldedPosition::is_liquidatable, (&position,), first_verdict),
        call_ensures(ShieldedPosition::is_liquidatable, (&position,), second_verdict),
    ensures
        first_capacity == second_capacity,
        first_verdict == second_verdict,
        first_capacity == position.spec_total_capacity(),
        first_verdict == position.spec_is_liquidatable(),
{
}

} // verus!
