//! Option sensitivities ("Greeks") and their arithmetic.
use vstd::prelude::*;

use crate::decimal::{abs_int, div_units, fits, mul_units, Dec, SCALE};

verus! {

/// The mathematical content of a [`Greeks`]: each sensitivity in 10^-8 units.
pub struct GreeksModel {
    pub delta: int,
    pub gamma: int,
    pub theta: int,
    pub vega: int,
    pub rho: int,
}

impl GreeksModel {
    pub open spec fn zero() -> GreeksModel {
        GreeksModel { delta: 0, gamma: 0, theta: 0, vega: 0, rho: 0 }
    }

    /// Every sensitivity can be held by a [`Dec`].
    pub open spec fn fits(self) -> bool {
        fits(self.delta) && fits(self.gamma) && fits(self.theta) && fits(self.vega) && fits(
            self.rho,
        )
    }

    pub open spec fn add(self, o: GreeksModel) -> GreeksModel {
        GreeksModel {
            delta: self.delta + o.delta,
            gamma: self.gamma + o.gamma,
            theta: self.theta + o.theta,
            vega: self.vega + o.vega,
            rho: self.rho + o.rho,
        }
    }

    pub open spec fn neg(self) -> GreeksModel {
        GreeksModel {
            delta: -self.delta,
            gamma: -self.gamma,
            theta: -self.theta,
            vega: -self.vega,
            rho: -self.rho,
        }
    }

    /// Each sensitivity multiplied by `m` (in units), cut to eight digits.
    pub open spec fn scale(self, m: int) -> GreeksModel {
        GreeksModel {
            delta: mul_units(self.delta, m),
            gamma: mul_units(self.gamma, m),
            theta: mul_units(self.theta, m),
            vega: mul_units(self.vega, m),
            rho: mul_units(self.rho, m),
        }
    }

    /// delta · Δspot
    pub open spec fn delta_term(self, spot_change: int) -> int {
        mul_units(self.delta, spot_change)
    }

    /// gamma · Δspot · Δspot / 2
    pub open spec fn gamma_term(self, spot_change: int) -> int {
        div_units(mul_units(mul_units(self.gamma, spot_change), spot_change), 2 * SCALE)
    }

    /// theta · days
    pub open spec fn theta_term(self, days: int) -> int {
        mul_units(self.theta, days)
    }

    /// vega · Δvol
    pub open spec fn vega_term(self, vol_change: int) -> int {
        mul_units(self.vega, vol_change)
    }

    /// rho · Δrate
    pub open spec fn rho_term(self, rate_change: int) -> int {
        mul_units(self.rho, rate_change)
    }

    /// Second-order estimate of the value change for a market move.
    pub open spec fn estimate_pnl(self, spot_change: int, vol_change: int, days: int) -> int {
        self.delta_term(spot_change) + self.gamma_term(spot_change) + self.theta_term(days)
            + self.vega_term(vol_change)
    }

    /// Every intermediate value of [`GreeksModel::estimate_pnl`] can be held by a [`Dec`].
    pub open spec fn estimate_fits(self, spot_change: int, vol_change: int, days: int) -> bool {
        &&& fits(self.delta_term(spot_change))
        &&& fits(mul_units(self.gamma, spot_change))
        &&& fits(mul_units(mul_units(self.gamma, spot_change), spot_change))
        &&& fits(self.gamma_term(spot_change))
        &&& fits(self.theta_term(days))
        &&& fits(self.vega_term(vol_change))
        &&& fits(self.delta_term(spot_change) + self.gamma_term(spot_change))
        &&& fits(
            self.delta_term(spot_change) + self.gamma_term(spot_change) + self.theta_term(days),
        )
        &&& fits(self.estimate_pnl(spot_change, vol_change, days))
    }

    /// delta · spot · multiplier
    pub open spec fn dollar_delta(self, spot: int, multiplier: int) -> int {
        mul_units(mul_units(self.delta, spot), multiplier)
    }

    /// gamma · (spot / 100)² · multiplier / 2: the value change for a 1% move.
    pub open spec fn dollar_gamma(self, spot: int, multiplier: int) -> int {
        let p = div_units(spot, 100 * SCALE);
        div_units(mul_units(mul_units(mul_units(self.gamma, p), p), multiplier), 2 * SCALE)
    }

    /// theta · multiplier
    pub open spec fn dollar_theta(self, multiplier: int) -> int {
        mul_units(self.theta, multiplier)
    }

    /// vega · multiplier
    pub open spec fn dollar_vega(self, multiplier: int) -> int {
        mul_units(self.vega, multiplier)
    }

    pub open spec fn dollar_delta_fits(self, spot: int, multiplier: int) -> bool {
        fits(mul_units(self.delta, spot)) && fits(self.dollar_delta(spot, multiplier))
    }

    pub open spec fn dollar_gamma_fits(self, spot: int, multiplier: int) -> bool {
        let p = div_units(spot, 100 * SCALE);
        &&& fits(p)
        &&& fits(mul_units(self.gamma, p))
        &&& fits(mul_units(mul_units(self.gamma, p), p))
        &&& fits(mul_units(mul_units(mul_units(self.gamma, p), p), multiplier))
        &&& fits(self.dollar_gamma(spot, multiplier))
    }
}

/// Sum of a sequence of Greeks, folded from zero in order.
pub open spec fn sum_models(s: Seq<GreeksModel>) -> GreeksModel
    decreases s.len(),
{
    if s.len() == 0 {
        GreeksModel::zero()
    } else {
        sum_models(s.drop_last()).add(s.last())
    }
}

/// The Greeks of a sequence, as models.
pub open spec fn models(s: Seq<Greeks>) -> Seq<GreeksModel> {
    s.map_values(|g: Greeks| g@)
}

/// Every running total of a fold over `s` can be held by [`Dec`]s.
pub open spec fn partial_sums_fit(s: Seq<GreeksModel>) -> bool {
    forall|i: int| 0 <= i <= s.len() ==> (#[trigger] sum_models(s.take(i))).fits()
}

/// Option sensitivities for one contract: delta, gamma, theta (per day), vega, rho.
#[derive(Clone, Copy, Debug, PartialEq, Eq, Structural)]
pub struct Greeks {
    delta: Dec,
    gamma: Dec,
    theta: Dec,
    vega: Dec,
    rho: Dec,
}

impl View for Greeks {
    type V = GreeksModel;

    closed spec fn view(&self) -> GreeksModel {
        GreeksModel {
            delta: self.delta@,
            gamma: self.gamma@,
            theta: self.theta@,
            vega: self.vega@,
            rho: self.rho@,
        }
    }
}

/// Every [`Greeks`] value has a model that fits.
pub proof fn lemma_greeks_fit(g: Greeks)
    ensures
        g@.fits(),
{
}

impl Greeks {
    pub fn new(delta: Dec, gamma: Dec, theta: Dec, vega: Dec, rho: Dec) -> (r: Greeks)
        ensures
            r@ == (GreeksModel { delta: delta@, gamma: gamma@, theta: theta@, vega: vega@, rho: rho@ }),
    {
        Greeks { delta, gamma, theta, vega, rho }
    }

    pub fn zero() -> (r: Greeks)
        ensures
            r@ == GreeksModel::zero(),
    {
        Greeks {
            delta: Dec::zero(),
            gamma: Dec::zero(),
            theta: Dec::zero(),
            vega: Dec::zero(),
            rho: Dec::zero(),
        }
    }

    pub fn delta(&self) -> (r: Dec)
        ensures
            r@ == self@.delta,
    {
        self.delta
    }

    pub fn gamma(&self) -> (r: Dec)
        ensures
            r@ == self@.gamma,
    {
        self.gamma
    }

    pub fn theta(&self) -> (r: Dec)
        ensures
            r@ == self@.theta,
    {
        self.theta
    }

    pub fn vega(&self) -> (r: Dec)
        ensures
            r@ == self@.vega,
    {
        self.vega
    }

    pub fn rho(&self) -> (r: Dec)
        ensures
            r@ == self@.rho,
    {
        self.rho
    }

    pub fn abs_delta(&self) -> (r: Dec)
        requires
            fits(abs_int(self@.delta)),
        ensures
            r@ == abs_int(self@.delta),
    {
        self.delta.abs()
    }

    pub fn is_long_delta(&self) -> (r: bool)
        ensures
            r == (self@.delta > 0),
    {
        self.delta.is_positive()
    }

    pub fn is_short_delta(&self) -> (r: bool)
        ensures
            r == (self@.delta < 0),
    {
        self.delta.is_negative()
    }

    pub fn is_zero(&self) -> (r: bool)
        ensures
            r == (self@ == GreeksModel::zero()),
    {
        self.delta.is_zero() && self.gamma.is_zero() && self.theta.is_zero()
            && self.vega.is_zero() && self.rho.is_zero()
    }

    /// Componentwise sum.
    pub fn add(self, other: Greeks) -> (r: Greeks)
        requires
            self@.add(other@).fits(),
        ensures
            r@ == self@.add(other@),
    {
        Greeks {
            delta: self.delta.add(other.delta),
            gamma: self.gamma.add(other.gamma),
            theta: self.theta.add(other.theta),
            vega: self.vega.add(other.vega),
            rho: self.rho.add(other.rho),
        }
    }

    /// Componentwise negation.
    pub fn neg(self) -> (r: Greeks)
        requires
            self@.neg().fits(),
        ensures
            r@ == self@.neg(),
    {
        Greeks {
            delta: self.delta.neg(),
            gamma: self.gamma.neg(),
            theta: self.theta.neg(),
            vega: self.vega.neg(),
            rho: self.rho.neg(),
        }
    }

    /// Every sensitivity multiplied by `multiplier`, e.g. for a position's size.
    pub fn scale(&self, multiplier: Dec) -> (r: Greeks)
        requires
            self@.scale(multiplier@).fits(),
        ensures
            r@ == self@.scale(multiplier@),
    {
        Greeks {
            delta: self.delta.mul(multiplier),
            gamma: self.gamma.mul(multiplier),
            theta: self.theta.mul(multiplier),
            vega: self.vega.mul(multiplier),
            rho: self.rho.mul(multiplier),
        }
    }

    /// The same as [`Greeks::scale`].
    pub fn mul(self, multiplier: Dec) -> (r: Greeks)
        requires
            self@.scale(multiplier@).fits(),
        ensures
            r@ == self@.scale(multiplier@),
    {
        self.scale(multiplier)
    }

    /// Sum of all items, folded from zero in order.
    pub fn sum(items: &Vec<Greeks>) -> (r: Greeks)
        requires
            partial_sums_fit(models(items@)),
        ensures
            r@ == sum_models(models(items@)),
    {
        let mut acc = Greeks::zero();
        let mut i: usize = 0;
        while i < items.len()
            invariant
                0 <= i <= items.len(),
                partial_sums_fit(models(items@)),
                acc@ == sum_models(models(items@).take(i as int)),
            decreases items.len() - i,
        {
            proof {
                let s = models(items@);
                assert(s.take(i + 1).drop_last() == s.take(i as int));
                assert(s.take(i + 1).last() == items@[i as int]@);
                assert(sum_models(s.take(i + 1)).fits());
            }
            acc = acc.add(items[i]);
            i = i + 1;
        }
        proof {
            assert(models(items@).take(items.len() as int) == models(items@));
        }
        acc
    }

    /// delta · spot · multiplier
    pub fn dollar_delta(&self, spot: Dec, multiplier: Dec) -> (r: Dec)
        requires
            self@.dollar_delta_fits(spot@, multiplier@),
        ensures
            r@ == self@.dollar_delta(spot@, multiplier@),
    {
        self.delta.mul(spot).mul(multiplier)
    }

    /// gamma · (spot / 100)² · multiplier / 2: the value change for a 1% move.
    pub fn dollar_gamma(&self, spot: Dec, multiplier: Dec) -> (r: Dec)
        requires
            self@.dollar_gamma_fits(spot@, multiplier@),
        ensures
            r@ == self@.dollar_gamma(spot@, multiplier@),
    {
        let one_percent = spot.div(Dec::from_int(100));
        self.gamma.mul(one_percent).mul(one_percent).mul(multiplier).div(Dec::from_int(2))
    }

    /// theta · multiplier
    pub fn dollar_theta(&self, multiplier: Dec) -> (r: Dec)
        requires
            fits(self@.dollar_theta(multiplier@)),
        ensures
            r@ == self@.dollar_theta(multiplier@),
    {
        self.theta.mul(multiplier)
    }

    /// vega · multiplier
    pub fn dollar_vega(&self, multiplier: Dec) -> (r: Dec)
        requires
            fits(self@.dollar_vega(multiplier@)),
        ensures
            r@ == self@.dollar_vega(multiplier@),
    {
        self.vega.mul(multiplier)
    }

    /// delta·Δspot + gamma·Δspot²/2 + theta·days + vega·Δvol
    pub fn estimate_pnl(&self, spot_change: Dec, vol_change: Dec, days_passed: Dec) -> (r: Dec)
        requires
            self@.estimate_fits(spot_change@, vol_change@, days_passed@),
        ensures
            r@ == self@.estimate_pnl(spot_change@, vol_change@, days_passed@),
    {
        let delta_pnl = self.delta.mul(spot_change);
        let gamma_pnl = self.gamma.mul(spot_change).mul(spot_change).div(Dec::from_int(2));
        let theta_pnl = self.theta.mul(days_passed);
        let vega_pnl = self.vega.mul(vol_change);
        delta_pnl.add(gamma_pnl).add(theta_pnl).add(vega_pnl)
    }
}

/// Addition of Greeks is associative.
pub proof fn lemma_add_associative(a: GreeksModel, b: GreeksModel, c: GreeksModel)
    ensures
        a.add(b).add(c) == a.add(b.add(c)),
{
}

/// Addition of Greeks is commutative.
pub proof fn lemma_add_commutative(a: GreeksModel, b: GreeksModel)
    ensures
        a.add(b) == b.add(a),
{
}

/// Zero is the identity of addition, on either side.
pub proof fn lemma_zero_identity(a: GreeksModel)
    ensures
        a.add(GreeksModel::zero()) == a,
        GreeksModel::zero().add(a) == a,
{
}

/// The sum of a sequence is its first part's sum plus its second part's sum.
pub proof fn lemma_sum_concat(s: Seq<GreeksModel>, t: Seq<GreeksModel>)
    ensures
        sum_models(s + t) == sum_models(s).add(sum_models(t)),
    decreases t.len(),
{
    if t.len() == 0 {
        assert(s + t == s);
    } else {
        assert((s + t).drop_last() == s + t.drop_last());
        lemma_sum_concat(s, t.drop_last());
    }
}

/// The sum of a sequence is the same in any order: swapping two neighbours
/// keeps it.
pub proof fn lemma_sum_swap(s: Seq<GreeksModel>, i: int)
    requires
        0 <= i,
        i + 1 < s.len(),
    ensures
        sum_models(s) == sum_models(
            s.update(i, s[i + 1]).update(i + 1, s[i]),
        ),
{
    let t = s.update(i, s[i + 1]).update(i + 1, s[i]);
    let pre = s.take(i);
    let post = s.skip(i + 2);
    assert(s == pre + seq![s[i], s[i + 1]] + post);
    assert(t == pre + seq![s[i + 1], s[i]] + post);
    lemma_sum_concat(pre + seq![s[i], s[i + 1]], post);
    lemma_sum_concat(pre + seq![s[i + 1], s[i]], post);
    lemma_sum_concat(pre, seq![s[i], s[i + 1]]);
    lemma_sum_concat(pre, seq![s[i + 1], s[i]]);
    assert(seq![s[i], s[i + 1]].drop_last() == seq![s[i]]);
    assert(seq![s[i + 1], s[i]].drop_last() == seq![s[i + 1]]);
    assert(seq![s[i]].drop_last() == Seq::<GreeksModel>::empty());
    assert(seq![s[i + 1]].drop_last() == Seq::<GreeksModel>::empty());
    let e = Seq::<GreeksModel>::empty();
    assert(sum_models(e) == GreeksModel::zero());
    assert(sum_models(seq![s[i]]) == GreeksModel::zero().add(s[i]));
    assert(sum_models(seq![s[i + 1]]) == GreeksModel::zero().add(s[i + 1]));
    assert(sum_models(seq![s[i], s[i + 1]]) == sum_models(seq![s[i]]).add(s[i + 1]));
    assert(sum_models(seq![s[i + 1], s[i]]) == sum_models(seq![s[i + 1]]).add(s[i]));
}

/// Summing a sequence equals adding its items one by one to zero: the sum of
/// a sequence with one more item is the old sum plus that item.
pub proof fn lemma_sum_push(s: Seq<GreeksModel>, g: GreeksModel)
    ensures
        sum_models(s.push(g)) == sum_models(s).add(g),
        sum_models(seq![g]) == g,
{
    assert(s.push(g).drop_last() == s);
    assert(seq![g].drop_last() == Seq::<GreeksModel>::empty());
    assert(sum_models(Seq::<GreeksModel>::empty()) == GreeksModel::zero());
    assert(sum_models(seq![g]) == GreeksModel::zero().add(g));
}

} // verus!
