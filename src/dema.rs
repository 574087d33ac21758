use vstd::prelude::*;

use crate::error::TaError;
use crate::label::{label, label_of};
use crate::smoother::{
    smoother_after_next, smoother_fresh, update_in, Phase, SmootherModel, SmootherSchedule, Update,
};

verus! {

/// The period a double-smoothed average has when none is given.
pub const DEMA_DEFAULT_PERIOD: usize = 9;

/// What a double-smoothed average publishes after its stages are updated.
#[derive(Debug, Clone, Copy, PartialEq, Eq, Structural)]
pub enum DemaOutput {
    /// The second stage's value, unchanged (the composite's own first call).
    SecondStage,
    /// `2 * first - second`, which cancels the lag of double smoothing.
    LagCorrected,
}

/// One call of a double-smoothed average: the first stage takes the input,
/// the second takes the first stage's new value, in that order, and then
/// `output` says what is published.
#[derive(Debug, Clone, Copy, PartialEq, Eq, Structural)]
pub struct DemaStep {
    pub first: Update,
    pub second: Update,
    pub output: DemaOutput,
}

/// The abstract state of a double-smoothed average: its own warm-up phase
/// and those of its two stages.
pub struct DemaModel {
    pub period: nat,
    pub phase: Phase,
    pub first: SmootherModel,
    pub second: SmootherModel,
}

pub open spec fn dema_output_in(phase: Phase) -> DemaOutput {
    match phase {
        Phase::WarmingUp => DemaOutput::SecondStage,
        Phase::Steady => DemaOutput::LagCorrected,
    }
}

/// The step taken on the next call from state `m`.
pub open spec fn dema_step(m: DemaModel) -> DemaStep {
    DemaStep {
        first: update_in(m.first.phase),
        second: update_in(m.second.phase),
        output: dema_output_in(m.phase),
    }
}

/// A double-smoothed average as constructed, or as left by a reset.
pub open spec fn dema_fresh(period: nat) -> DemaModel {
    DemaModel {
        period,
        phase: Phase::WarmingUp,
        first: smoother_fresh(period),
        second: smoother_fresh(period),
    }
}

pub open spec fn dema_after_next(m: DemaModel) -> DemaModel {
    DemaModel {
        period: m.period,
        phase: Phase::Steady,
        first: smoother_after_next(m.first),
        second: smoother_after_next(m.second),
    }
}

/// The state after `n` more calls.
pub open spec fn dema_after(m: DemaModel, n: nat) -> DemaModel
    decreases n,
{
    if n == 0 {
        m
    } else {
        dema_after(dema_after_next(m), (n - 1) as nat)
    }
}

/// The steps of the next `n` calls, in order.
pub open spec fn dema_steps(m: DemaModel, n: nat) -> Seq<DemaStep>
    decreases n,
{
    if n == 0 {
        Seq::empty()
    } else {
        seq![dema_step(m)] + dema_steps(dema_after_next(m), (n - 1) as nat)
    }
}

/// The schedule of a double exponential moving average: two exponential
/// smoothers of one period, chained, and the composite's own warm-up.
#[derive(Debug, Clone, Copy)]
pub struct DemaSchedule {
    period: usize,
    phase: Phase,
    first: SmootherSchedule,
    second: SmootherSchedule,
}

impl View for DemaSchedule {
    type V = DemaModel;

    closed spec fn view(&self) -> DemaModel {
        DemaModel {
            period: self.period as nat,
            phase: self.phase,
            first: self.first@,
            second: self.second@,
        }
    }
}

impl DemaSchedule {
    /// The period is positive and both stages share it.
    pub closed spec fn wf(&self) -> bool {
        &&& self.period > 0
        &&& self.first.wf()
        &&& self.second.wf()
        &&& self.first@.period == self.period
        &&& self.second@.period == self.period
    }

    /// A fresh schedule; a zero period is refused.
    pub fn new(period: usize) -> (r: Result<Self, TaError>)
        ensures
            period == 0 <==> r is Err,
            r matches Err(e) ==> e == TaError::InvalidParameter,
            r matches Ok(s) ==> s.wf() && s@ == dema_fresh(period as nat),
    {
        if period == 0 {
            Err(TaError::InvalidParameter)
        } else {
            Ok(DemaSchedule {
                period,
                phase: Phase::WarmingUp,
                first: SmootherSchedule::with_period(period),
                second: SmootherSchedule::with_period(period),
            })
        }
    }

    pub fn period(&self) -> (r: usize)
        ensures
            r as nat == self@.period,
    {
        self.period
    }

    /// The display label, `DEMA(period)`.
    pub fn label(&self) -> (r: String)
        ensures
            r@ == label_of(seq!['D', 'E', 'M', 'A'], self@.period),
    {
        proof {
            reveal_strlit("DEMA");
        }
        label("DEMA", self.period)
    }

    /// The stages' smoothing coefficient, `2 / (period + 1)`, as numerator
    /// and denominator.
    pub fn alpha(&self) -> (r: (u32, u128))
        requires
            self.wf(),
        ensures
            r.0 == 2,
            r.1 == self@.period + 1,
    {
        self.first.alpha()
    }

    /// Advances both stages, first then second, and the composite's own
    /// phase; returns what each stage does and what is published.
    pub fn next(&mut self) -> (st: DemaStep)
        ensures
            st == dema_step(old(self)@),
            final(self)@ == dema_after_next(old(self)@),
            final(self).wf() == old(self).wf(),
    {
        let first = self.first.next();
        let second = self.second.next();
        let output = match self.phase {
            Phase::WarmingUp => DemaOutput::SecondStage,
            Phase::Steady => DemaOutput::LagCorrected,
        };
        self.phase = Phase::Steady;
        DemaStep { first, second, output }
    }

    /// Clears the composite's warm-up and resets both stages, first then
    /// second; the period is kept.
    pub fn reset(&mut self)
        requires
            old(self).wf(),
        ensures
            final(self)@ == dema_fresh(old(self)@.period),
            final(self).wf() == old(self).wf(),
    {
        self.phase = Phase::WarmingUp;
        self.first.reset();
        self.second.reset();
    }
}

impl Default for DemaSchedule {
    fn default() -> (r: Self)
        ensures
            r.wf(),
            r@ == dema_fresh(DEMA_DEFAULT_PERIOD as nat),
    {
        DemaSchedule {
            period: DEMA_DEFAULT_PERIOD,
            phase: Phase::WarmingUp,
            first: SmootherSchedule::with_period(DEMA_DEFAULT_PERIOD),
            second: SmootherSchedule::with_period(DEMA_DEFAULT_PERIOD),
        }
    }
}

} // verus!
