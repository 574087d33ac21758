//! What the schedules guarantee over whole runs of calls.
use vstd::prelude::*;

use crate::dema::{dema_after, dema_after_next, dema_fresh, dema_steps, DemaModel};
use crate::smoother::{
    smoother_after_next, smoother_fresh, smoother_updates, Phase, SmootherModel, Update,
};
use crate::trix::{trix_after, trix_after_next, trix_fresh, trix_steps, TrixModel, TrixOutput};

verus! {

proof fn lemma_steady_smoother_blends(m: SmootherModel, n: nat)
    requires
        m.phase == Phase::Steady,
    ensures
        smoother_updates(m, n).len() == n,
        forall|i: int| 0 <= i < n ==> smoother_updates(m, n)[i] == Update::Blend,
    decreases n,
{
    if n > 0 {
        lemma_steady_smoother_blends(smoother_after_next(m), (n - 1) as nat);
    }
}

/// A fresh exponential smoother seeds on its first value, so that the first
/// call returns its input exactly, and blends every value after it.
pub proof fn lemma_smoother_seeds_first(period: nat, n: nat)
    requires
        n > 0,
    ensures
        smoother_updates(smoother_fresh(period), n).len() == n,
        smoother_updates(smoother_fresh(period), n)[0] == Update::Seed,
        forall|i: int|
            1 <= i < n ==> smoother_updates(smoother_fresh(period), n)[i] == Update::Blend,
{
    let m = smoother_fresh(period);
    lemma_steady_smoother_blends(smoother_after_next(m), (n - 1) as nat);
    assert(smoother_updates(m, n) == seq![Update::Seed] + smoother_updates(
        smoother_after_next(m),
        (n - 1) as nat,
    ));
}

proof fn lemma_dema_after_keeps_period(m: DemaModel, k: nat)
    ensures
        dema_after(m, k).period == m.period,
    decreases k,
{
    if k > 0 {
        lemma_dema_after_keeps_period(dema_after_next(m), (k - 1) as nat);
    }
}

proof fn lemma_trix_after_keeps_period(m: TrixModel, k: nat)
    ensures
        trix_after(m, k).period == m.period,
    decreases k,
{
    if k > 0 {
        lemma_trix_after_keeps_period(trix_after_next(m), (k - 1) as nat);
    }
}

/// Whatever a double-smoothed average has been fed, after a reset the next
/// `n` calls take exactly the steps that a newly built one of the same period
/// takes: fed the same inputs again, it publishes the same values.
pub proof fn lemma_dema_reset_replays(m: DemaModel, k: nat, n: nat)
    ensures
        dema_steps(dema_fresh(dema_after(m, k).period), n) == dema_steps(
            dema_fresh(m.period),
            n,
        ),
{
    lemma_dema_after_keeps_period(m, k);
}

/// Whatever a triple-smoothed rate has been fed, after a reset the next `n`
/// calls take exactly the steps that a newly built one of the same period
/// takes.
pub proof fn lemma_trix_reset_replays(m: TrixModel, k: nat, n: nat)
    ensures
        trix_steps(trix_fresh(trix_after(m, k).period), n) == trix_steps(
            trix_fresh(m.period),
            n,
        ),
{
    lemma_trix_after_keeps_period(m, k);
}

proof fn lemma_trix_steady_rates(m: TrixModel, n: nat)
    requires
        m.phase == Phase::Steady,
    ensures
        trix_steps(m, n).len() == n,
        forall|i: int| 0 <= i < n ==> trix_steps(m, n)[i].output == TrixOutput::RateOfChange,
    decreases n,
{
    if n > 0 {
        lemma_trix_steady_rates(trix_after_next(m), (n - 1) as nat);
    }
}

/// A fresh triple-smoothed rate publishes the neutral zero on its first
/// call, whatever the input, and a rate of change on every later one.
pub proof fn lemma_trix_first_is_neutral(period: nat, n: nat)
    requires
        n > 0,
    ensures
        trix_steps(trix_fresh(period), n).len() == n,
        trix_steps(trix_fresh(period), n)[0].output == TrixOutput::Neutral,
        forall|i: int|
            1 <= i < n ==> trix_steps(trix_fresh(period), n)[i].output
                == TrixOutput::RateOfChange,
{
    let m = trix_fresh(period);
    lemma_trix_steady_rates(trix_after_next(m), (n - 1) as nat);
    assert(trix_steps(m, n) == seq![crate::trix::trix_step(m)] + trix_steps(
        trix_after_next(m),
        (n - 1) as nat,
    ));
}

/// A double-smoothed average drives its stages exactly as two smoothers
/// driven by hand would be: on every call its first and second stage apply
/// the update that a lone smoother in the same state applies.
pub proof fn lemma_dema_follows_stages(m: DemaModel, n: nat)
    ensures
        dema_steps(m, n).len() == n,
        smoother_updates(m.first, n).len() == n,
        smoother_updates(m.second, n).len() == n,
        forall|i: int|
            0 <= i < n ==> {
                &&& #[trigger] dema_steps(m, n)[i].first == smoother_updates(m.first, n)[i]
                &&& dema_steps(m, n)[i].second == smoother_updates(m.second, n)[i]
            },
    decreases n,
{
    if n > 0 {
        let m2 = dema_after_next(m);
        lemma_dema_follows_stages(m2, (n - 1) as nat);
        assert(m2.first == smoother_after_next(m.first));
        assert(m2.second == smoother_after_next(m.second));
        assert forall|i: int| 0 <= i < n implies {
            &&& #[trigger] dema_steps(m, n)[i].first == smoother_updates(m.first, n)[i]
            &&& dema_steps(m, n)[i].second == smoother_updates(m.second, n)[i]
        } by {
            if i > 0 {
                assert(dema_steps(m, n)[i] == dema_steps(m2, (n - 1) as nat)[i - 1]);
                assert(smoother_updates(m.first, n)[i] == smoother_updates(
                    m2.first,
                    (n - 1) as nat,
                )[i - 1]);
                assert(smoother_updates(m.second, n)[i] == smoother_updates(
                    m2.second,
                    (n - 1) as nat,
                )[i - 1]);
            }
        }
    }
}

/// A triple-smoothed rate drives its stages exactly as three smoothers
/// driven by hand would be: on every call each stage applies the update that
/// a lone smoother in the same state applies.
pub proof fn lemma_trix_follows_stages(m: TrixModel, n: nat)
    ensures
        trix_steps(m, n).len() == n,
        smoother_updates(m.first, n).len() == n,
        smoother_updates(m.second, n).len() == n,
        smoother_updates(m.third, n).len() == n,
        forall|i: int|
            0 <= i < n ==> {
                &&& #[trigger] trix_steps(m, n)[i].first == smoother_updates(m.first, n)[i]
                &&& trix_steps(m, n)[i].second == smoother_updates(m.second, n)[i]
                &&& trix_steps(m, n)[i].third == smoother_updates(m.third, n)[i]
            },
    decreases n,
{
    if n > 0 {
        let m2 = trix_after_next(m);
        lemma_trix_follows_stages(m2, (n - 1) as nat);
        assert forall|i: int| 0 <= i < n implies {
            &&& #[trigger] trix_steps(m, n)[i].first == smoother_updates(m.first, n)[i]
            &&& trix_steps(m, n)[i].second == smoother_updates(m.second, n)[i]
            &&& trix_steps(m, n)[i].third == smoother_updates(m.third, n)[i]
        } by {
            if i > 0 {
                assert(trix_steps(m, n)[i] == trix_steps(m2, (n - 1) as nat)[i - 1]);
                assert(smoother_updates(m.first, n)[i] == smoother_updates(
                    m2.first,
                    (n - 1) as nat,
                )[i - 1]);
                assert(smoother_updates(m.second, n)[i] == smoother_updates(
                    m2.second,
                    (n - 1) as nat,
                )[i - 1]);
                assert(smoother_updates(m.third, n)[i] == smoother_updates(
                    m2.third,
                    (n - 1) as nat,
                )[i - 1]);
            }
        }
    }
}

} // verus!
