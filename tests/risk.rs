use option_chain_orderbook::{Dec, Greeks, HaltReason, RiskBreach, RiskController, RiskLimits};

fn n(value: i64) -> Dec {
    Dec::from_int(value)
}

#[test]
fn test_risk_controller_creation() {
    let controller = RiskController::default();
    assert!(!controller.is_halted());
    assert!(controller.halt_reason().is_none());
}

#[test]
fn test_daily_loss_halt() {
    let limits = RiskLimits { max_daily_loss: n(1000), ..RiskLimits::default() };
    let mut controller = RiskController::new(limits);
    controller.update_pnl(n(-1500));
    assert!(controller.is_halted());
    assert!(controller.halt_reason().unwrap().message().contains("Daily loss"));
}

#[test]
fn controller_test_greek_limits() {
    let controller = RiskController::default();
    let greeks = Greeks::new(n(200000), n(0), n(0), n(0), n(0));
    let breaches = controller.check_greek_limits(&greeks);
    assert!(!breaches.is_empty());
    assert!(matches!(breaches[0], RiskBreach::Delta { .. }));
}

#[test]
fn halt_is_sticky_until_resume() {
    let limits = RiskLimits { max_daily_loss: n(1000), ..RiskLimits::default() };
    let mut controller = RiskController::new(limits);
    controller.update_pnl(n(-1500));
    assert_eq!(
        controller.halt_reason(),
        Some(&HaltReason::DailyLoss { daily_pnl: n(-1500), limit: n(1000) })
    );
    controller.update_pnl(n(500));
    controller.update_pnl(n(0));
    controller.reset_daily();
    controller.update_position_value(n(1));
    assert!(controller.is_halted());
    controller.resume();
    assert!(!controller.is_halted());
    controller.update_pnl(n(100));
    assert!(!controller.is_halted());
}

#[test]
fn drawdown_and_position_value_halts() {
    let mut controller = RiskController::default();
    controller.update_pnl(n(40000));
    assert_eq!(controller.peak_pnl(), n(40000));
    controller.update_pnl(n(-9000));
    // drawdown 49,000 is within 50,000; loss 9,000 within 10,000
    assert!(!controller.is_halted());
    // both ceilings are breached; the drawdown check comes last and names it
    controller.update_pnl(n(-10001));
    assert_eq!(
        controller.halt_reason(),
        Some(&HaltReason::Drawdown { drawdown: n(50001), limit: n(50000) })
    );
    let mut fresh = RiskController::default();
    fresh.update_position_value(n(-1000001));
    assert_eq!(
        fresh.halt_reason(),
        Some(&HaltReason::PositionValue { value: n(1000001), limit: n(1000000) })
    );
    assert_eq!(fresh.position_value(), n(-1000001));
    let mut manual = RiskController::default();
    manual.halt("maintenance");
    assert_eq!(manual.halt_reason().unwrap().message(), "maintenance");
}

#[test]
fn reset_daily_keeps_halt_and_zeroes_pnl() {
    let mut controller = RiskController::default();
    controller.update_pnl(n(-20000));
    controller.reset_daily();
    assert_eq!(controller.daily_pnl(), Dec::zero());
    assert_eq!(controller.peak_pnl(), Dec::zero());
    assert!(controller.is_halted());
}

#[test]
fn risk_greek_check_reports_all_and_changes_nothing() {
    let controller = RiskController::default();
    let greeks = Greeks::new(n(-200000), n(-20000), n(0), n(60000), n(0));
    let breaches = controller.check_greek_limits(&greeks);
    assert_eq!(
        breaches,
        vec![
            RiskBreach::Delta { current: n(200000), limit: n(100000) },
            RiskBreach::Gamma { current: n(20000), limit: n(10000) },
            RiskBreach::Vega { current: n(60000), limit: n(50000) },
        ]
    );
    assert!(!controller.is_halted());
}
