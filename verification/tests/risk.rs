use x402_swarm::auto_ramp::AutoRamp;
use x402_swarm::bucket_guard::BucketCapGuard;
use x402_swarm::cooldown::CooldownGate;
use x402_swarm::kill_switch::KillSwitch;
use x402_swarm::risk_gate::{RiskBlock, RiskGate};

#[test]
fn test_bucket_guard() {
    let mut guard = BucketCapGuard::new();
    assert!(guard.can_open("WBTC"));
    guard.register_open("WBTC");
    // Same bucket — should block
    assert!(!guard.can_open("WETH"));
    // Close WBTC — WETH should be available again
    guard.register_close("WBTC");
    assert!(guard.can_open("WETH"));
}

#[test]
fn bucket_guard_other_buckets_unaffected() {
    let mut guard = BucketCapGuard::default();
    guard.register_open("WBTC");
    assert!(guard.can_open("UNI"));
    assert!(guard.can_open("USDT"));
    assert!(guard.can_open("SOMETHING_UNKNOWN"));
    guard.register_open("SOMETHING_UNKNOWN");
    assert!(guard.can_open("SOMETHING_UNKNOWN"));
}

#[test]
fn stable_bucket_holds_three() {
    let mut guard = BucketCapGuard::new();
    guard.register_open("USDT");
    guard.register_open("USDC");
    assert!(guard.can_open("DAI"));
    guard.register_open("DAI");
    assert!(!guard.can_open("DAI"));
    assert!(!guard.can_open("USDT"));
    guard.register_close("USDC");
    assert!(guard.can_open("USDC"));
}

#[test]
fn double_open_counts_once_and_close_undoes_open() {
    let mut guard = BucketCapGuard::new();
    guard.register_open("UNI");
    guard.register_open("UNI");
    guard.register_close("UNI");
    assert!(guard.can_open("AAVE"));
    // closing a symbol that is not open changes nothing
    guard.register_close("LINK");
    assert!(guard.can_open("LINK"));
}

#[test]
fn cooldown_blocks_until_expiry() {
    let mut gate = CooldownGate::new(1800);
    assert!(gate.is_clear_at("WBTC", 1_000));
    gate.start_cooldown_at("WBTC", 1_000);
    assert!(!gate.is_clear_at("WBTC", 1_000));
    assert!(!gate.is_clear_at("WBTC", 2_799));
    assert!(gate.is_clear_at("WBTC", 2_800));
    assert!(gate.is_clear_at("WETH", 1_000));
}

#[test]
fn cooldown_expiry_saturates() {
    let mut gate = CooldownGate::new(10);
    gate.start_cooldown_at("WBTC", u64::MAX - 3);
    assert!(!gate.is_clear_at("WBTC", u64::MAX - 1));
    assert!(gate.is_clear_at("WBTC", u64::MAX));
}

#[test]
fn cooldown_by_clock() {
    let mut gate = CooldownGate::new(3600);
    assert!(gate.is_clear("MNT"));
    gate.start_cooldown("MNT");
    assert!(!gate.is_clear("MNT"));
    let default_gate = CooldownGate::default();
    assert_eq!(default_gate.default_cooldown_seconds, 0);
}

// A trade's result enters the breaker as two facts: whether it lost, and
// whether the day's running result breached the floor.
#[test]
fn test_kill_switch_consecutive() {
    let mut ks = KillSwitch::new();
    assert!(!ks.record_trade_at(true, false, 100));
    assert!(!ks.record_trade_at(true, false, 200));
    assert!(!ks.is_triggered);
    assert!(ks.record_trade_at(true, false, 300));
    assert!(ks.is_triggered);
    assert_eq!(ks.triggered_at, Some(300));
    assert_eq!(ks.consecutive_losses, 3);
}

// A single loss of 25 against a floor of -2% of 1000 breaches the floor.
#[test]
fn test_kill_switch_pnl() {
    let mut ks = KillSwitch::new();
    assert!(ks.record_trade_at(true, true, 50));
    assert_eq!(ks.consecutive_losses, 1);
    assert!(ks.is_paused_at(50));
}

#[test]
fn kill_switch_win_ends_streak() {
    let mut ks = KillSwitch::new();
    ks.record_trade_at(true, false, 1);
    ks.record_trade_at(true, false, 2);
    ks.record_trade_at(false, false, 3);
    assert_eq!(ks.consecutive_losses, 0);
    ks.record_trade_at(true, false, 4);
    assert!(!ks.is_triggered);
}

#[test]
fn kill_switch_pause_lifts_and_reset_rearms() {
    let mut ks = KillSwitch::new();
    ks.record_trade_at(true, true, 1_000);
    assert!(ks.is_paused_at(1_000));
    assert!(ks.is_paused_at(1_000 + 21_599));
    ks.reset_daily_at(1_000 + 21_599);
    assert!(ks.is_triggered);
    assert!(!ks.is_paused_at(1_000 + 21_600));
    ks.reset_daily_at(1_000 + 21_600);
    assert!(!ks.is_triggered);
    assert_eq!(ks.triggered_at, None);
    assert_eq!(ks.consecutive_losses, 0);
    // a clock that reads before the trip counts as no time elapsed
    let mut ks2 = KillSwitch::new();
    ks2.record_trade_at(false, true, 5_000);
    assert!(ks2.is_paused_at(10));
}

#[test]
fn kill_switch_by_clock() {
    let mut ks = KillSwitch::new();
    assert!(!ks.is_paused());
    assert!(ks.record_trade(true, true));
    assert!(ks.is_paused());
    ks.reset_daily();
    assert!(ks.is_triggered);
}

#[test]
fn auto_ramp_promotes_through_gates() {
    let mut ramp = AutoRamp::new();
    let week = 604_800;
    // cooldown since epoch 0 not yet elapsed
    assert!(!ramp.evaluate_promotion_at(12, true, 0, 0, week - 1));
    assert!(!ramp.evaluate_promotion_at(9, true, 0, 0, week));
    assert!(!ramp.evaluate_promotion_at(12, false, 0, 0, week));
    assert!(!ramp.evaluate_promotion_at(12, true, 1, 0, week));
    assert!(!ramp.evaluate_promotion_at(12, true, 0, 2, week));
    assert!(ramp.evaluate_promotion_at(10, true, 0, 1, week));
    assert_eq!(ramp.current_stage, 1);
    assert_eq!(ramp.last_promotion_epoch, week);
    assert!(!ramp.evaluate_promotion_at(12, true, 0, 0, 2 * week - 1));
    assert!(ramp.evaluate_promotion_at(12, true, 0, 0, 2 * week));
    assert_eq!(ramp.current_stage, 2);
    ramp.hard_demote();
    assert_eq!(ramp.current_stage, 1);
}

#[test]
fn auto_ramp_tops_out_and_floors() {
    let mut ramp = AutoRamp::default();
    let week = 604_800;
    for k in 1..=4u64 {
        assert!(ramp.evaluate_promotion_at(12, true, 0, 0, k * week));
    }
    assert_eq!(ramp.current_stage, 4);
    assert!(!ramp.evaluate_promotion_at(12, true, 0, 0, 10 * week));
    assert_eq!(ramp.current_stage, 4);
    for _ in 0..6 {
        ramp.hard_demote();
    }
    assert_eq!(ramp.current_stage, 0);
}

#[test]
fn auto_ramp_by_clock() {
    let mut ramp = AutoRamp::new();
    // the system clock is far past one week after the epoch
    assert!(ramp.evaluate_promotion(12, true, 0, 0));
    assert_eq!(ramp.current_stage, 1);
    assert!(!ramp.evaluate_promotion(12, true, 0, 0));
}

#[test]
fn test_risk_gate_full() {
    let gate = RiskGate::new();
    assert_eq!(gate.check_guards_at("WBTC", 1_000), Ok(()));
    assert_eq!(gate.check_guards("WBTC"), Ok(()));
}

#[test]
fn risk_gate_blocks_in_order() {
    let mut gate = RiskGate::new();
    gate.bucket_guard.register_open("WETH");
    assert_eq!(gate.check_guards_at("WBTC", 10), Err(RiskBlock::BucketCap));
    gate.cooldown.start_cooldown_at("WBTC", 10);
    assert_eq!(gate.check_guards_at("WBTC", 10), Err(RiskBlock::Cooldown));
    gate.kill_switch.record_trade_at(true, true, 10);
    assert_eq!(gate.check_guards_at("WBTC", 10), Err(RiskBlock::KillSwitchActive));
    assert_eq!(gate.check_guards_at("UNI", 10), Err(RiskBlock::KillSwitchActive));
}

#[test]
fn risk_block_messages() {
    assert_eq!(
        RiskBlock::KillSwitchActive.message("WBTC"),
        "BLOCKED: Kill-switch active \u{2014} system paused"
    );
    assert_eq!(RiskBlock::Cooldown.message("WBTC"), "BLOCKED: WBTC in cooldown period");
    assert_eq!(RiskBlock::BucketCap.message("WETH"), "BLOCKED: Bucket cap reached for WETH");
    assert_eq!(
        RiskBlock::EdgeTooSmall.message("WBTC"),
        "BLOCKED: Kelly sizing too small \u{2014} edge insufficient"
    );
}
