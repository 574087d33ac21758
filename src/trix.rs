use vstd::prelude::*;

use crate::error::TaError;
use crate::label::{label, label_of};
use crate::smoother::{
    smoother_after_next, smoother_fresh, update_in, Phase, SmootherModel, SmootherSchedule, Update,
};

verus! {

/// The period a triple-smoothed rate has when none is given.
pub const TRIX_DEFAULT_PERIOD: usize = 15;

/// What a triple-smoothed rate of change publishes after its stages are
/// updated.
#[derive(Debug, Clone, Copy, PartialEq, Eq, Structural)]
pub enum TrixOutput {
    /// Zero, the "no signal yet" value; the third stage's value becomes the
    /// baseline (the composite's own first call).
    Neutral,
    /// `(third - baseline) / baseline * 100`; the third stage's value then
    /// becomes the baseline for the next call.
    RateOfChange,
}

/// One call of a triple-smoothed rate: the first stage takes the input,
/// each later stage the value its predecessor just produced, in order, and
/// then `output` says what is published.
#[derive(Debug, Clone, Copy, PartialEq, Eq, Structural)]
pub struct TrixStep {
    pub first: Update,
    pub second: Update,
    pub third: Update,
    pub output: TrixOutput,
}

/// The abstract state of a triple-smoothed rate: its own warm-up phase and
/// those of its three stages.
pub struct TrixModel {
    pub period: nat,
    pub phase: Phase,
    pub first: SmootherModel,
    pub second: SmootherModel,
    pub third: SmootherModel,
}

pub open spec fn trix_output_in(phase: Phase) -> TrixOutput {
    match phase {
        Phase::WarmingUp => TrixOutput::Neutral,
        Phase::Steady => TrixOutput::RateOfChange,
    }
}

/// The step taken on the next call from state `m`.
pub open spec fn trix_step(m: TrixModel) -> TrixStep {
    TrixStep {
        first: update_in(m.first.phase),
        second: update_in(m.second.phase),
        third: update_in(m.third.phase),
        output: trix_output_in(m.phase),
    }
}

/// A triple-smoothed rate as constructed, or as left by a reset.
pub open spec fn trix_fresh(period: nat) -> TrixModel {
    TrixModel {
        period,
        phase: Phase::WarmingUp,
        first: smoother_fresh(period),
        second: smoother_fresh(period),
        third: smoother_fresh(period),
    }
}

pub open spec fn trix_after_next(m: TrixModel) -> TrixModel {
    TrixModel {
        period: m.period,
        phase: Phase::Steady,
        first: smoother_after_next(m.first),
        second: smoother_after_next(m.second),
        third: smoother_after_next(m.third),
    }
}

/// The state after `n` more calls.
pub open spec fn trix_after(m: TrixModel, n: nat) -> TrixModel
    decreases n,
{
    if n == 0 {
        m
    } else {
        trix_after(trix_after_next(m), (n - 1) as nat)
    }
}

/// The steps of the next `n` calls, in order.
pub open spec fn trix_steps(m: TrixModel, n: nat) -> Seq<TrixStep>
    decreases n,
{
    if n == 0 {
        Seq::empty()
    } else {
        seq![trix_step(m)] + trix_steps(trix_after_next(m), (n - 1) as nat)
    }
}

/// The schedule of a triple exponential average (a percentage rate of change
/// of a triply smoothed series): three exponential smoothers of one period,
/// chained, and the composite's own warm-up.
#[derive(Debug, Clone, Copy)]
pub struct TrixSchedule {
    period: usize,
    phase: Phase,
    first: SmootherSchedule,
    second: SmootherSchedule,
    third: SmootherSchedule,
}

impl View for TrixSchedule {
    type V = TrixModel;

    closed spec fn view(&self) -> TrixModel {
        TrixModel {
            period: self.period as nat,
            phase: self.phase,
            first: self.first@,
            second: self.second@,
            third: self.third@,
        }
    }
}

impl TrixSchedule {
    /// The period is positive and all three stages share it.
    pub closed spec fn wf(&self) -> bool {
        &&& self.period > 0
        &&& self.first.wf()
        &&& self.second.wf()
        &&& self.third.wf()
        &&& self.first@.period == self.period
        &&& self.second@.period == self.period
        &&& self.third@.period == self.period
    }

    /// A fresh schedule; a zero period is refused.
    pub fn new(period: usize) -> (r: Result<Self, TaError>)
        ensures
            period == 0 <==> r is Err,
            r matches Err(e) ==> e == TaError::InvalidParameter,
            r matches Ok(s) ==> s.wf() && s@ == trix_fresh(period as nat),
    {
        if period == 0 {
            Err(TaError::InvalidParameter)
        } else {
            Ok(TrixSchedule {
                period,
                phase: Phase::WarmingUp,
                first: SmootherSchedule::with_period(period),
                second: SmootherSchedule::with_period(period),
                third: SmootherSchedule::with_period(period),
            })
        }
    }

    pub fn period(&self) -> (r: usize)
        ensures
            r as nat == self@.period,
    {
        self.period
    }

    /// The display label, `TRIX(period)`.
    pub fn label(&self) -> (r: String)
        ensures
            r@ == label_of(seq!['T', 'R', 'I', 'X'], self@.period),
    {
        proof {
            reveal_strlit("TRIX");
        }
        label("TRIX", self.period)
    }

    /// The stages' smoothing coefficient, `2 / (period + 1)`, as numerator
    /// and denominator.
    pub fn alpha(&self) -> (r: (u32, u128))
        requires
            self.wf(),
        ensures
            r.0 == 2,
            r.1 == self@.period + 1,
    {
        self.first.alpha()
    }

    /// Advances the three stages in order and the composite's own phase;
    /// returns what each stage does and what is published.
    pub fn next(&mut self) -> (st: TrixStep)
        ensures
            st == trix_step(old(self)@),
            final(self)@ == trix_after_next(old(self)@),
            final(self).wf() == old(self).wf(),
    {
        let first = self.first.next();
        let second = self.second.next();
        let third = self.third.next();
        let output = match self.phase {
            Phase::WarmingUp => TrixOutput::Neutral,
            Phase::Steady => TrixOutput::RateOfChange,
        };
        self.phase = Phase::Steady;
        TrixStep { first, second, third, output }
    }

    /// Clears the composite's warm-up and resets the three stages in order;
    /// the period is kept.
    pub fn reset(&mut self)
        requires
            old(self).wf(),
        ensures
            final(self)@ == trix_fresh(old(self)@.period),
            final(self).wf(),
    {
        self.phase = Phase::WarmingUp;
        self.first.reset();
        self.second.reset();
        self.third.reset();
    }
}

impl Default for TrixSchedule {
    fn default() -> (r: Self)
        ensures
            r.wf(),
            r@ == trix_fresh(TRIX_DEFAULT_PERIOD as nat),
    {
        TrixSchedule {
            period: TRIX_DEFAULT_PERIOD,
            phase: Phase::WarmingUp,
            first: SmootherSchedule::with_period(TRIX_DEFAULT_PERIOD),
            second: SmootherSchedule::with_period(TRIX_DEFAULT_PERIOD),
            third: SmootherSchedule::with_period(TRIX_DEFAULT_PERIOD),
        }
    }
}

} // verus!
