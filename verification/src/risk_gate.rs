//! The unified risk gate: the single entry point that runs the pre-order
//! guardrails in order (kill switch, cooldown, bucket cap). Position
//! sizing, the last gate, works on amounts and is done by the caller.

use vstd::prelude::*;
use crate::auto_ramp::AutoRamp;
use crate::bucket_guard::{BucketCapGuard, default_bucket_of, default_buckets, may_open};
use crate::clock::now_epoch;
use crate::cooldown::{CooldownGate, clear_at, cooldown_expiry};
use crate::kill_switch::{KillSwitch, after_trade, paused_at};

verus! {

/// The market regime that modulates position sizes.
#[derive(Clone, Copy, Debug, PartialEq, Eq, Structural)]
pub enum MarketRegime {
    Calm,
    Trending,
    Choppy,
}

/// Cooldown that a new risk gate puts a symbol in after a trade closes, in seconds (30 minutes).
pub const DEFAULT_TRADE_COOLDOWN_SECONDS: u64 = 1800;

/// Why a trade was blocked.
#[derive(Clone, Copy, Debug, PartialEq, Eq, Structural)]
pub enum RiskBlock {
    /// The kill switch pauses all trading.
    KillSwitchActive,
    /// The symbol is still in cooldown.
    Cooldown,
    /// The symbol's correlation bucket is full.
    BucketCap,
    /// The sized position is too small for the edge to be worth it.
    EdgeTooSmall,
}

/// The message with which a block on `symbol` is reported.
pub open spec fn block_message(b: RiskBlock, symbol: Seq<char>) -> Seq<char> {
    match b {
        RiskBlock::KillSwitchActive => "BLOCKED: Kill-switch active \u{2014} system paused"@,
        RiskBlock::Cooldown => "BLOCKED: "@ + symbol + " in cooldown period"@,
        RiskBlock::BucketCap => "BLOCKED: Bucket cap reached for "@ + symbol,
        RiskBlock::EdgeTooSmall => "BLOCKED: Kelly sizing too small \u{2014} edge insufficient"@,
    }
}

impl RiskBlock {
    /// The message with which a block on `symbol` is reported.
    pub fn message(&self, symbol: &str) -> (s: String)
        ensures
            s@ == block_message(*self, symbol@),
    {
        match self {
            RiskBlock::KillSwitchActive => String::from_str(
                "BLOCKED: Kill-switch active \u{2014} system paused",
            ),
            RiskBlock::Cooldown => {
                let mut s = String::from_str("BLOCKED: ");
                s.append(symbol);
                s.append(" in cooldown period");
                s
            },
            RiskBlock::BucketCap => {
                let mut s = String::from_str("BLOCKED: Bucket cap reached for ");
                s.append(symbol);
                s
            },
            RiskBlock::EdgeTooSmall => String::from_str(
                "BLOCKED: Kelly sizing too small \u{2014} edge insufficient",
            ),
        }
    }
}

/// All pre-order guardrails of the swarm.
pub struct RiskGate {
    pub kill_switch: KillSwitch,
    pub bucket_guard: BucketCapGuard,
    pub cooldown: CooldownGate,
    pub auto_ramp: AutoRamp,
}

/// The verdict of the guardrails on a trade in `symbol` at time `now`, the
/// first failing gate deciding: the kill switch, then the symbol's
/// cooldown, then its bucket cap.
pub open spec fn guard_verdict(gate: RiskGate, symbol: Seq<char>, now: u64) -> Result<(), RiskBlock> {
    if paused_at(gate.kill_switch, now) {
        Err(RiskBlock::KillSwitchActive)
    } else if !clear_at(gate.cooldown.cooldowns(), symbol, now) {
        Err(RiskBlock::Cooldown)
    } else if !may_open(gate.bucket_guard.bucket_of(), gate.bucket_guard.buckets(), symbol) {
        Err(RiskBlock::BucketCap)
    } else {
        Ok(())
    }
}

impl RiskGate {
    /// A gate with an armed kill switch, the default buckets, a 30-minute
    /// trade cooldown and the default ramp at its first stage.
    pub fn new() -> (gate: Self)
        ensures
            gate.kill_switch.consecutive_losses == 0,
            gate.kill_switch.max_consecutive_losses == 3,
            !gate.kill_switch.is_triggered,
            gate.kill_switch.triggered_at is None,
            gate.kill_switch.cooldown_seconds == 21600,
            gate.bucket_guard.bucket_of() == default_bucket_of(),
            gate.bucket_guard.buckets() == default_buckets(),
            gate.cooldown.cooldowns() == Map::<Seq<char>, u64>::empty(),
            gate.cooldown.cooldown_seconds() == DEFAULT_TRADE_COOLDOWN_SECONDS,
            gate.auto_ramp.current_stage == 0,
            gate.auto_ramp.stage_count == 5,
            gate.auto_ramp.last_promotion_epoch == 0,
            gate.auto_ramp.promotion_cooldown == 604800,
    {
        RiskGate {
            kill_switch: KillSwitch::new(),
            bucket_guard: BucketCapGuard::new(),
            cooldown: CooldownGate::new(DEFAULT_TRADE_COOLDOWN_SECONDS),
            auto_ramp: AutoRamp::new(),
        }
    }

    /// Run the guardrails on a trade in `symbol` at time `now`.
    pub fn check_guards_at(&self, symbol: &str, now: u64) -> (verdict: Result<(), RiskBlock>)
        ensures
            verdict == guard_verdict(*self, symbol@, now),
    {
        if self.kill_switch.is_paused_at(now) {
            return Err(RiskBlock::KillSwitchActive);
        }
        if !self.cooldown.is_clear_at(symbol, now) {
            return Err(RiskBlock::Cooldown);
        }
        if !self.bucket_guard.can_open(symbol) {
            return Err(RiskBlock::BucketCap);
        }
        Ok(())
    }

    /// Run the guardrails on a trade in `symbol` now, by the system clock.
    pub fn check_guards(&self, symbol: &str) -> (verdict: Result<(), RiskBlock>)
        ensures
            exists|now: u64| verdict == #[trigger] guard_verdict(*self, symbol@, now),
            !self.kill_switch.is_triggered && !self.cooldown.cooldowns().contains_key(symbol@) ==> (
            verdict is Ok <==> may_open(
                self.bucket_guard.bucket_of(),
                self.bucket_guard.buckets(),
                symbol@,
            )),
    {
        let now = now_epoch();
        self.check_guards_at(symbol, now)
    }
}

/// A trade passes the guardrails only when the kill switch does not pause
/// trading, its symbol is out of cooldown and its bucket has room; the kill
/// switch blocks every symbol alike.
pub proof fn law_pass_needs_every_guard(gate: RiskGate, symbol: Seq<char>, other: Seq<char>, now: u64)
    ensures
        guard_verdict(gate, symbol, now) is Ok <==> (!paused_at(gate.kill_switch, now) && clear_at(
            gate.cooldown.cooldowns(),
            symbol,
            now,
        ) && may_open(gate.bucket_guard.bucket_of(), gate.bucket_guard.buckets(), symbol)),
        paused_at(gate.kill_switch, now) ==> guard_verdict(gate, symbol, now) == guard_verdict(
            gate,
            other,
            now,
        ),
{
}

/// A trip recorded at `t0` blocks trades judged at any time `t` from `t0`
/// until the kill switch's cooldown has run out, for every symbol alike.
pub proof fn law_trip_blocks_until_cooldown(
    gate: RiskGate,
    symbol: Seq<char>,
    is_loss: bool,
    pnl_breach: bool,
    t0: u64,
    t: u64,
)
    requires
        t0 <= t,
        t - t0 < gate.kill_switch.cooldown_seconds,
        (is_loss && gate.kill_switch.consecutive_losses + 1 >= gate.kill_switch.max_consecutive_losses)
            || pnl_breach,
        is_loss ==> gate.kill_switch.consecutive_losses < u32::MAX,
    ensures
        guard_verdict(
            RiskGate { kill_switch: after_trade(gate.kill_switch, is_loss, pnl_breach, t0), ..gate },
            symbol,
            t,
        ) == Err::<(), RiskBlock>(RiskBlock::KillSwitchActive),
{
}

/// A cooldown started on `symbol` at `t0` blocks that symbol, with the
/// cooldown verdict, at any time `t` from `t0` until the cooldown has run
/// out, as long as the kill switch does not pause trading: `after` is the
/// gate once the cooldown was started.
pub proof fn law_cooldown_blocks_symbol_until_expiry(
    before: RiskGate,
    after: RiskGate,
    symbol: Seq<char>,
    t0: u64,
    t: u64,
)
    requires
        t0 <= t,
        t - t0 < before.cooldown.cooldown_seconds(),
        t0 + before.cooldown.cooldown_seconds() <= u64::MAX,
        after.cooldown.cooldowns() == before.cooldown.cooldowns().insert(
            symbol,
            cooldown_expiry(t0, before.cooldown.cooldown_seconds()),
        ),
        !paused_at(after.kill_switch, t),
    ensures
        guard_verdict(after, symbol, t) == Err::<(), RiskBlock>(RiskBlock::Cooldown),
{
}

} // verus!
