use vstd::prelude::*;

use crate::error::TaError;

verus! {

/// Where an indicator stands in its warm-up: before its first value, or after.
#[derive(Debug, Clone, Copy, PartialEq, Eq, Structural)]
pub enum Phase {
    WarmingUp,
    Steady,
}

/// How an exponential smoother treats the value it is fed on one call.
#[derive(Debug, Clone, Copy, PartialEq, Eq, Structural)]
pub enum Update {
    /// The smoothed value becomes the input itself.
    Seed,
    /// The smoothed value becomes `alpha * input + (1 - alpha) * previous`.
    Blend,
}

/// The update a smoother in `phase` applies to its next input.
pub open spec fn update_in(phase: Phase) -> Update {
    match phase {
        Phase::WarmingUp => Update::Seed,
        Phase::Steady => Update::Blend,
    }
}

/// The abstract state of an exponential smoother's schedule.
pub struct SmootherModel {
    pub period: nat,
    pub phase: Phase,
}

/// A smoother of the given period as constructed, or as left by a reset.
pub open spec fn smoother_fresh(period: nat) -> SmootherModel {
    SmootherModel { period, phase: Phase::WarmingUp }
}

/// A smoother's state after one more value has been fed in.
pub open spec fn smoother_after_next(m: SmootherModel) -> SmootherModel {
    SmootherModel { period: m.period, phase: Phase::Steady }
}

/// A smoother's state after `n` more values.
pub open spec fn smoother_after(m: SmootherModel, n: nat) -> SmootherModel
    decreases n,
{
    if n == 0 {
        m
    } else {
        smoother_after(smoother_after_next(m), (n - 1) as nat)
    }
}

/// The updates a smoother applies to its next `n` values, in order.
pub open spec fn smoother_updates(m: SmootherModel, n: nat) -> Seq<Update>
    decreases n,
{
    if n == 0 {
        Seq::empty()
    } else {
        seq![update_in(m.phase)] + smoother_updates(smoother_after_next(m), (n - 1) as nat)
    }
}

/// The warm-up schedule of an exponential smoother with smoothing
/// coefficient `2 / (period + 1)`.
#[derive(Debug, Clone, Copy)]
pub struct SmootherSchedule {
    period: usize,
    phase: Phase,
}

impl View for SmootherSchedule {
    type V = SmootherModel;

    closed spec fn view(&self) -> SmootherModel {
        SmootherModel { period: self.period as nat, phase: self.phase }
    }
}

impl SmootherSchedule {
    /// The configuration is valid: the period is positive.
    pub closed spec fn wf(&self) -> bool {
        self.period > 0
    }

    /// A fresh schedule; a zero period is refused.
    pub fn new(period: usize) -> (r: Result<Self, TaError>)
        ensures
            period == 0 <==> r is Err,
            r matches Err(e) ==> e == TaError::InvalidParameter,
            r matches Ok(s) ==> s.wf() && s@ == smoother_fresh(period as nat),
    {
        if period == 0 {
            Err(TaError::InvalidParameter)
        } else {
            Ok(Self::with_period(period))
        }
    }

    /// A fresh schedule for a period already known to be valid; composites
    /// build their stages with it once their own period has been checked.
    pub fn with_period(period: usize) -> (r: Self)
        requires
            period > 0,
        ensures
            r.wf(),
            r@ == smoother_fresh(period as nat),
    {
        SmootherSchedule { period, phase: Phase::WarmingUp }
    }

    pub fn period(&self) -> (r: usize)
        ensures
            r as nat == self@.period,
    {
        self.period
    }

    pub fn phase(&self) -> (r: Phase)
        ensures
            r == self@.phase,
    {
        self.phase
    }

    /// The smoothing coefficient as numerator and denominator:
    /// `2 / (period + 1)`.
    pub fn alpha(&self) -> (r: (u32, u128))
        ensures
            r.0 == 2,
            r.1 == self@.period + 1,
    {
        (2, self.period as u128 + 1)
    }

    /// Records that one more value is fed in and returns how it is to be
    /// treated: the first value after construction or reset seeds the
    /// smoothed value, every later one is blended into it.
    pub fn next(&mut self) -> (u: Update)
        ensures
            u == update_in(old(self)@.phase),
            final(self)@ == smoother_after_next(old(self)@),
            final(self).wf() == old(self).wf(),
    {
        let u = match self.phase {
            Phase::WarmingUp => Update::Seed,
            Phase::Steady => Update::Blend,
        };
        self.phase = Phase::Steady;
        u
    }

    /// Returns to the state the schedule had at construction; the period is
    /// kept.
    pub fn reset(&mut self)
        ensures
            final(self)@ == smoother_fresh(old(self)@.period),
            final(self).wf() == old(self).wf(),
    {
        self.phase = Phase::WarmingUp;
    }
}

} // verus!
