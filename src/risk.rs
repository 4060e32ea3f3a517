//! Risk limits and the sticky halt machine that enforces them.
use vstd::prelude::*;

use crate::decimal::{abs_int, dec_of, fits, Dec, SCALE};
use crate::greeks::{Greeks, GreeksModel};

verus! {

/// Ceilings on loss, drawdown, position value and absolute Greeks.
#[derive(Clone, Copy, Debug, PartialEq, Eq, Structural)]
pub struct RiskLimits {
    pub max_daily_loss: Dec,
    pub max_drawdown: Dec,
    pub max_position_value: Dec,
    pub max_delta: Dec,
    pub max_gamma: Dec,
    pub max_vega: Dec,
}

impl Default for RiskLimits {
    /// Loss 10,000; drawdown 50,000; position value 1,000,000; delta
    /// 100,000; gamma 10,000; vega 50,000.
    fn default() -> (r: RiskLimits)
        ensures
            r.max_daily_loss@ == 10000 * SCALE,
            r.max_drawdown@ == 50000 * SCALE,
            r.max_position_value@ == 1000000 * SCALE,
            r.max_delta@ == 100000 * SCALE,
            r.max_gamma@ == 10000 * SCALE,
            r.max_vega@ == 50000 * SCALE,
    {
        RiskLimits {
            max_daily_loss: Dec::from_int(10000),
            max_drawdown: Dec::from_int(50000),
            max_position_value: Dec::from_int(1000000),
            max_delta: Dec::from_int(100000),
            max_gamma: Dec::from_int(10000),
            max_vega: Dec::from_int(50000),
        }
    }
}

/// An absolute-Greek ceiling that a book exceeds.
#[derive(Clone, Copy, Debug, PartialEq, Eq, Structural)]
pub enum RiskBreach {
    Delta { current: Dec, limit: Dec },
    Gamma { current: Dec, limit: Dec },
    Vega { current: Dec, limit: Dec },
}

/// What stopped trading.
#[derive(Clone, Debug, PartialEq, Eq)]
pub enum HaltReason {
    /// Daily P&L fell below minus the daily loss ceiling.
    DailyLoss { daily_pnl: Dec, limit: Dec },
    /// P&L fell further than the drawdown ceiling below its peak.
    Drawdown { drawdown: Dec, limit: Dec },
    /// |position value| rose above its ceiling.
    PositionValue { value: Dec, limit: Dec },
    /// An operator halted trading.
    Manual(String),
}

/// Trading state: halted is left only by an explicit resume.
#[derive(Clone, Debug, PartialEq, Eq)]
pub enum TradingState {
    Active,
    Halted(HaltReason),
}

impl HaltReason {
    /// A sentence naming the breached limit, or the operator's reason.
    pub fn message(&self) -> (r: String)
        ensures
            r@ == (match self {
                HaltReason::DailyLoss { .. } => "Daily loss limit exceeded"@,
                HaltReason::Drawdown { .. } => "Drawdown limit exceeded"@,
                HaltReason::PositionValue { .. } => "Position value limit exceeded"@,
                HaltReason::Manual(s) => s@,
            }),
    {
        match self {
            HaltReason::DailyLoss { .. } => "Daily loss limit exceeded".to_owned(),
            HaltReason::Drawdown { .. } => "Drawdown limit exceeded".to_owned(),
            HaltReason::PositionValue { .. } => "Position value limit exceeded".to_owned(),
            HaltReason::Manual(s) => s.clone(),
        }
    }
}

/// The mathematical content of a [`RiskController`].
pub struct RiskModel {
    pub limits: RiskLimits,
    pub daily_pnl: int,
    pub peak_pnl: int,
    pub position_value: int,
    pub state: TradingState,
}

/// The breach of one ceiling, if `over`.
pub open spec fn risk_breach_if(over: bool, b: RiskBreach) -> Seq<RiskBreach> {
    if over {
        seq![b]
    } else {
        Seq::empty()
    }
}

impl RiskModel {
    pub open spec fn is_halted(self) -> bool {
        self.state is Halted
    }

    /// The state after `update_pnl(pnl)`: the daily P&L is replaced, the peak
    /// follows it up, and a loss or drawdown breach halts (the later check
    /// names the reason).
    pub open spec fn after_update_pnl(self, pnl: int) -> RiskModel {
        let peak = if pnl > self.peak_pnl {
            pnl
        } else {
            self.peak_pnl
        };
        let drawdown = peak - pnl;
        let loss_limit = self.limits.max_daily_loss@;
        let dd_limit = self.limits.max_drawdown@;
        let s1 = if pnl < -loss_limit {
            TradingState::Halted(
                HaltReason::DailyLoss { daily_pnl: dec_of(pnl), limit: dec_of(loss_limit) },
            )
        } else {
            self.state
        };
        let s2 = if drawdown > dd_limit {
            TradingState::Halted(
                HaltReason::Drawdown { drawdown: dec_of(drawdown), limit: dec_of(dd_limit) },
            )
        } else {
            s1
        };
        RiskModel { daily_pnl: pnl, peak_pnl: peak, state: s2, ..self }
    }

    pub open spec fn pnl_fits(self, pnl: int) -> bool {
        let peak = if pnl > self.peak_pnl {
            pnl
        } else {
            self.peak_pnl
        };
        fits(-self.limits.max_daily_loss@) && fits(peak - pnl)
    }

    /// The state after `update_position_value(value)`.
    pub open spec fn after_update_position_value(self, value: int) -> RiskModel {
        let limit = self.limits.max_position_value@;
        RiskModel {
            position_value: value,
            state: if abs_int(value) > limit {
                TradingState::Halted(
                    HaltReason::PositionValue { value: dec_of(abs_int(value)), limit: dec_of(limit) },
                )
            } else {
                self.state
            },
            ..self
        }
    }

    pub open spec fn after_reset_daily(self) -> RiskModel {
        RiskModel { daily_pnl: 0, peak_pnl: 0, ..self }
    }

    pub open spec fn after_resume(self) -> RiskModel {
        RiskModel { state: TradingState::Active, ..self }
    }

    /// The state after a run of `update_pnl` calls, in order.
    pub open spec fn after_pnl_updates(self, pnls: Seq<int>) -> RiskModel
        decreases pnls.len(),
    {
        if pnls.len() == 0 {
            self
        } else {
            self.after_pnl_updates(pnls.drop_last()).after_update_pnl(pnls.last())
        }
    }

    /// Every breached absolute-Greek ceiling, in the order delta, gamma, vega.
    pub open spec fn greek_breaches(self, g: GreeksModel) -> Seq<RiskBreach> {
        let l = self.limits;
        risk_breach_if(
            abs_int(g.delta) > l.max_delta@,
            RiskBreach::Delta { current: dec_of(abs_int(g.delta)), limit: l.max_delta },
        ) + risk_breach_if(
            abs_int(g.gamma) > l.max_gamma@,
            RiskBreach::Gamma { current: dec_of(abs_int(g.gamma)), limit: l.max_gamma },
        ) + risk_breach_if(
            abs_int(g.vega) > l.max_vega@,
            RiskBreach::Vega { current: dec_of(abs_int(g.vega)), limit: l.max_vega },
        )
    }
}

/// Watches P&L, drawdown, position value and Greeks; halts trading on a
/// breach of its own thresholds and stays halted until resumed.
#[derive(Clone, Debug)]
pub struct RiskController {
    limits: RiskLimits,
    daily_pnl: Dec,
    peak_pnl: Dec,
    position_value: Dec,
    state: TradingState,
}

impl View for RiskController {
    type V = RiskModel;

    closed spec fn view(&self) -> RiskModel {
        RiskModel {
            limits: self.limits,
            daily_pnl: self.daily_pnl@,
            peak_pnl: self.peak_pnl@,
            position_value: self.position_value@,
            state: self.state,
        }
    }
}

impl RiskController {
    pub fn new(limits: RiskLimits) -> (r: RiskController)
        ensures
            r@ == (RiskModel {
                limits,
                daily_pnl: 0,
                peak_pnl: 0,
                position_value: 0,
                state: TradingState::Active,
            }),
    {
        RiskController {
            limits,
            daily_pnl: Dec::zero(),
            peak_pnl: Dec::zero(),
            position_value: Dec::zero(),
            state: TradingState::Active,
        }
    }

    pub fn limits(&self) -> (r: &RiskLimits)
        ensures
            *r == self@.limits,
    {
        &self.limits
    }

    pub fn is_halted(&self) -> (r: bool)
        ensures
            r == self@.is_halted(),
    {
        match self.state {
            TradingState::Active => false,
            TradingState::Halted(_) => true,
        }
    }

    pub fn state(&self) -> (r: &TradingState)
        ensures
            *r == self@.state,
    {
        &self.state
    }

    /// Why trading is halted; nothing while active.
    pub fn halt_reason(&self) -> (r: Option<&HaltReason>)
        ensures
            r is Some == self@.is_halted(),
            r matches Some(h) ==> self@.state == TradingState::Halted(*h),
    {
        match &self.state {
            TradingState::Active => None,
            TradingState::Halted(h) => Some(h),
        }
    }

    pub fn daily_pnl(&self) -> (r: Dec)
        ensures
            r@ == self@.daily_pnl,
    {
        self.daily_pnl
    }

    pub fn peak_pnl(&self) -> (r: Dec)
        ensures
            r@ == self@.peak_pnl,
    {
        self.peak_pnl
    }

    pub fn position_value(&self) -> (r: Dec)
        ensures
            r@ == self@.position_value,
    {
        self.position_value
    }

    /// Records today's P&L and halts on a loss or drawdown breach.
    pub fn update_pnl(&mut self, pnl: Dec)
        requires
            old(self)@.pnl_fits(pnl@),
        ensures
            final(self)@ == old(self)@.after_update_pnl(pnl@),
    {
        self.daily_pnl = pnl;
        if pnl > self.peak_pnl {
            self.peak_pnl = pnl;
        }
        self.check_pnl_limits();
    }

    /// Records the book's value and halts when its size breaches the ceiling.
    pub fn update_position_value(&mut self, value: Dec)
        requires
            fits(abs_int(value@)),
        ensures
            final(self)@ == old(self)@.after_update_position_value(value@),
    {
        self.position_value = value;
        self.check_position_limits();
    }

    /// Compares absolute delta, gamma and vega with their ceilings; changes
    /// nothing.
    pub fn check_greek_limits(&self, greeks: &Greeks) -> (r: Vec<RiskBreach>)
        requires
            fits(abs_int(greeks@.delta)),
            fits(abs_int(greeks@.gamma)),
            fits(abs_int(greeks@.vega)),
        ensures
            r@ == self@.greek_breaches(greeks@),
    {
        let mut breaches: Vec<RiskBreach> = Vec::new();
        let delta = greeks.delta().abs();
        if delta > self.limits.max_delta {
            breaches.push(RiskBreach::Delta { current: delta, limit: self.limits.max_delta });
        }
        let gamma = greeks.gamma().abs();
        if gamma > self.limits.max_gamma {
            breaches.push(RiskBreach::Gamma { current: gamma, limit: self.limits.max_gamma });
        }
        let vega = greeks.vega().abs();
        if vega > self.limits.max_vega {
            breaches.push(RiskBreach::Vega { current: vega, limit: self.limits.max_vega });
        }
        proof {
            assert(dec_of(abs_int(greeks@.delta)) == delta);
            assert(dec_of(abs_int(greeks@.gamma)) == gamma);
            assert(dec_of(abs_int(greeks@.vega)) == vega);
        }
        breaches
    }

    /// Halts trading for an operator's reason.
    pub fn halt(&mut self, reason: &str)
        ensures
            final(self)@.state matches TradingState::Halted(HaltReason::Manual(s)) && s@ == reason@,
            final(self)@ == (RiskModel { state: final(self)@.state, ..old(self)@ }),
    {
        self.state = TradingState::Halted(HaltReason::Manual(reason.to_owned()));
    }

    /// The only way out of a halt.
    pub fn resume(&mut self)
        ensures
            final(self)@ == old(self)@.after_resume(),
    {
        self.state = TradingState::Active;
    }

    /// Starts a new day: daily and peak P&L go to zero; a halt stays.
    pub fn reset_daily(&mut self)
        ensures
            final(self)@ == old(self)@.after_reset_daily(),
    {
        self.daily_pnl = Dec::zero();
        self.peak_pnl = Dec::zero();
    }

    fn check_pnl_limits(&mut self)
        requires
            fits(-old(self)@.limits.max_daily_loss@),
            fits(old(self)@.peak_pnl - old(self)@.daily_pnl),
        ensures
            final(self)@ == (RiskModel {
                state: {
                    let loss_limit = old(self)@.limits.max_daily_loss@;
                    let dd_limit = old(self)@.limits.max_drawdown@;
                    let pnl = old(self)@.daily_pnl;
                    let drawdown = old(self)@.peak_pnl - pnl;
                    let s1 = if pnl < -loss_limit {
                        TradingState::Halted(
                            HaltReason::DailyLoss {
                                daily_pnl: dec_of(pnl),
                                limit: dec_of(loss_limit),
                            },
                        )
                    } else {
                        old(self)@.state
                    };
                    if drawdown > dd_limit {
                        TradingState::Halted(
                            HaltReason::Drawdown {
                                drawdown: dec_of(drawdown),
                                limit: dec_of(dd_limit),
                            },
                        )
                    } else {
                        s1
                    }
                },
                ..old(self)@
            }),
    {
        if self.daily_pnl < self.limits.max_daily_loss.neg() {
            self.state = TradingState::Halted(
                HaltReason::DailyLoss {
                    daily_pnl: self.daily_pnl,
                    limit: self.limits.max_daily_loss,
                },
            );
        }
        let drawdown = self.peak_pnl.sub(self.daily_pnl);
        if drawdown > self.limits.max_drawdown {
            self.state = TradingState::Halted(
                HaltReason::Drawdown { drawdown, limit: self.limits.max_drawdown },
            );
        }
    }

    fn check_position_limits(&mut self)
        requires
            fits(abs_int(old(self)@.position_value)),
        ensures
            final(self)@ == old(self)@.after_update_position_value(old(self)@.position_value),
    {
        let value = self.position_value.abs();
        if value > self.limits.max_position_value {
            self.state = TradingState::Halted(
                HaltReason::PositionValue { value, limit: self.limits.max_position_value },
            );
        }
    }
}

impl Default for RiskController {
    fn default() -> (r: RiskController)
        ensures
            r@.daily_pnl == 0,
            r@.peak_pnl == 0,
            r@.position_value == 0,
            r@.state == TradingState::Active,
            r@.limits.max_daily_loss@ == 10000 * SCALE,
            r@.limits.max_drawdown@ == 50000 * SCALE,
            r@.limits.max_position_value@ == 1000000 * SCALE,
            r@.limits.max_delta@ == 100000 * SCALE,
            r@.limits.max_gamma@ == 10000 * SCALE,
            r@.limits.max_vega@ == 50000 * SCALE,
    {
        RiskController::new(RiskLimits::default())
    }
}

/// A halt survives every update except `resume`: P&L updates (however
/// good), position-value updates and a daily reset all leave it halted.
pub proof fn lemma_halt_is_sticky(m: RiskModel, pnl: int, value: int)
    requires
        m.is_halted(),
    ensures
        m.after_update_pnl(pnl).is_halted(),
        m.after_update_position_value(value).is_halted(),
        m.after_reset_daily().is_halted(),
        !m.after_resume().is_halted(),
{
}

/// Once a P&L update breaches the daily loss ceiling, trading stays halted
/// through any later run of P&L updates.
pub proof fn lemma_loss_breach_halts_for_good(m: RiskModel, pnl: int, later: Seq<int>)
    requires
        pnl < -m.limits.max_daily_loss@,
    ensures
        m.after_update_pnl(pnl).is_halted(),
        m.after_update_pnl(pnl).after_pnl_updates(later).is_halted(),
    decreases later.len(),
{
    if later.len() > 0 {
        lemma_loss_breach_halts_for_good(m, pnl, later.drop_last());
    }
}

} // verus!
