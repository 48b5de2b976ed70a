//! Dual-trigger circuit breaker: a run of consecutive losing trades, or a
//! breach of the daily loss floor, pauses all trading for a cooldown.
//!
//! The profit-and-loss amounts themselves are kept by the caller, which
//! tells the breaker, per trade, whether it lost and whether the day's
//! running result breached the floor.

use vstd::prelude::*;
use crate::clock::now_epoch;

verus! {

/// Default number of consecutive losses that trips the breaker.
pub const DEFAULT_MAX_CONSECUTIVE_LOSSES: u32 = 3;

/// Default pause after tripping: 6 hours.
pub const DEFAULT_KILL_COOLDOWN_SECONDS: u64 = 21600;

/// The breaker's state.
#[derive(Clone, Copy, Debug)]
pub struct KillSwitch {
    pub consecutive_losses: u32,
    pub max_consecutive_losses: u32,
    pub is_triggered: bool,
    pub triggered_at: Option<u64>,
    pub cooldown_seconds: u64,
}

/// The breaker after one trade: a loss extends the losing streak, any other
/// result ends it; reaching the streak limit or breaching the daily floor
/// trips the breaker and stamps the trip with `now`. An already tripped
/// breaker stays tripped.
pub open spec fn after_trade(ks: KillSwitch, is_loss: bool, pnl_breach: bool, now: u64) -> KillSwitch {
    let losses = if is_loss { (ks.consecutive_losses + 1) as u32 } else { 0u32 };
    if losses >= ks.max_consecutive_losses || pnl_breach {
        KillSwitch {
            consecutive_losses: losses,
            is_triggered: true,
            triggered_at: Some(now),
            ..ks
        }
    } else {
        KillSwitch { consecutive_losses: losses, ..ks }
    }
}

/// Seconds from `from` to `to`; a clock that reads earlier than `from` counts as none.
pub open spec fn elapsed(from: u64, to: u64) -> u64 {
    if to >= from {
        (to - from) as u64
    } else {
        0
    }
}

/// Whether the breaker holds trading paused at time `now`: only a tripped
/// breaker pauses, and one whose trip time is known re-arms itself once the
/// cooldown has elapsed since the trip.
pub open spec fn paused_at(ks: KillSwitch, now: u64) -> bool {
    if !ks.is_triggered {
        false
    } else {
        match ks.triggered_at {
            Some(t) => elapsed(t, now) < ks.cooldown_seconds,
            None => true,
        }
    }
}

/// The breaker after the start of a trading day at `now`: unless it still
/// pauses trading, it is re-armed and its losing streak forgotten.
pub open spec fn after_daily_reset(ks: KillSwitch, now: u64) -> KillSwitch {
    if paused_at(ks, now) {
        ks
    } else {
        KillSwitch { is_triggered: false, triggered_at: None, consecutive_losses: 0, ..ks }
    }
}

impl KillSwitch {
    /// An armed breaker: three consecutive losses trip it, and a trip pauses for 6 hours.
    pub fn new() -> (ks: Self)
        ensures
            ks.consecutive_losses == 0,
            ks.max_consecutive_losses == DEFAULT_MAX_CONSECUTIVE_LOSSES,
            !ks.is_triggered,
            ks.triggered_at is None,
            ks.cooldown_seconds == DEFAULT_KILL_COOLDOWN_SECONDS,
    {
        KillSwitch {
            consecutive_losses: 0,
            max_consecutive_losses: DEFAULT_MAX_CONSECUTIVE_LOSSES,
            is_triggered: false,
            triggered_at: None,
            cooldown_seconds: DEFAULT_KILL_COOLDOWN_SECONDS,
        }
    }

    /// Record one trade closed at time `now`. Returns whether the breaker is tripped.
    pub fn record_trade_at(&mut self, is_loss: bool, pnl_breach: bool, now: u64) -> (tripped: bool)
        requires
            is_loss ==> old(self).consecutive_losses < u32::MAX,
        ensures
            *final(self) == after_trade(*old(self), is_loss, pnl_breach, now),
            tripped == final(self).is_triggered,
    {
        if is_loss {
            self.consecutive_losses = self.consecutive_losses + 1;
        } else {
            self.consecutive_losses = 0;
        }
        let consecutive_breach = self.consecutive_losses >= self.max_consecutive_losses;
        if consecutive_breach || pnl_breach {
            self.is_triggered = true;
            self.triggered_at = Some(now);
        }
        self.is_triggered
    }

    /// Record one trade closed now, by the system clock. Returns whether the
    /// breaker is tripped.
    pub fn record_trade(&mut self, is_loss: bool, pnl_breach: bool) -> (tripped: bool)
        requires
            is_loss ==> old(self).consecutive_losses < u32::MAX,
        ensures
            exists|now: u64| *final(self) == #[trigger] after_trade(*old(self), is_loss, pnl_breach, now),
            tripped == final(self).is_triggered,
    {
        let now = now_epoch();
        self.record_trade_at(is_loss, pnl_breach, now)
    }

    /// Whether trading is paused at time `now`.
    pub fn is_paused_at(&self, now: u64) -> (paused: bool)
        ensures
            paused == paused_at(*self, now),
    {
        if !self.is_triggered {
            return false;
        }
        match self.triggered_at {
            Some(triggered_at) => {
                let elapsed = now.saturating_sub(triggered_at);
                elapsed < self.cooldown_seconds
            },
            None => true,
        }
    }

    /// Whether trading is paused now, by the system clock.
    pub fn is_paused(&self) -> (paused: bool)
        ensures
            !self.is_triggered ==> !paused,
            self.is_triggered && self.triggered_at is None ==> paused,
            self.triggered_at is Some && self.cooldown_seconds == 0 ==> !paused,
    {
        let now = now_epoch();
        self.is_paused_at(now)
    }

    /// Start a new trading day at time `now`.
    pub fn reset_daily_at(&mut self, now: u64)
        ensures
            *final(self) == after_daily_reset(*old(self), now),
    {
        if !self.is_paused_at(now) {
            self.is_triggered = false;
            self.triggered_at = None;
            self.consecutive_losses = 0;
        }
    }

    /// Start a new trading day now, by the system clock.
    pub fn reset_daily(&mut self)
        ensures
            exists|now: u64| *final(self) == #[trigger] after_daily_reset(*old(self), now),
    {
        let now = now_epoch();
        self.reset_daily_at(now);
    }
}

/// An untripped breaker never pauses trading.
pub proof fn law_untripped_never_pauses(ks: KillSwitch, now: u64)
    requires
        !ks.is_triggered,
    ensures
        !paused_at(ks, now),
{
}

/// Recording a trade never re-arms a tripped breaker; only the daily reset does.
pub proof fn law_trip_is_sticky(ks: KillSwitch, is_loss: bool, pnl_breach: bool, now: u64)
    requires
        ks.is_triggered,
    ensures
        after_trade(ks, is_loss, pnl_breach, now).is_triggered,
{
}

/// Either trigger trips the breaker: the loss that brings the streak to the
/// limit, or a breach of the daily floor, leaves it tripped and pausing
/// trading from that moment until the cooldown has run out.
pub proof fn law_trigger_trips_and_pauses(
    ks: KillSwitch,
    is_loss: bool,
    pnl_breach: bool,
    now: u64,
    later: u64,
)
    requires
        (is_loss && ks.consecutive_losses + 1 >= ks.max_consecutive_losses) || pnl_breach,
        is_loss ==> ks.consecutive_losses < u32::MAX,
        now <= later,
        later - now < ks.cooldown_seconds,
    ensures
        after_trade(ks, is_loss, pnl_breach, now).is_triggered,
        paused_at(after_trade(ks, is_loss, pnl_breach, now), later),
{
}

/// A winning (or flat) trade ends the losing streak.
pub proof fn law_win_ends_streak(ks: KillSwitch, pnl_breach: bool, now: u64)
    ensures
        after_trade(ks, false, pnl_breach, now).consecutive_losses == 0,
{
}

/// The pause lifts by itself: a breaker tripped at `t` no longer pauses
/// once the cooldown has elapsed, and a daily reset then re-arms it fully.
pub proof fn law_pause_lifts_after_cooldown(ks: KillSwitch, t: u64, now: u64)
    requires
        ks.triggered_at == Some(t),
        now >= t,
        now - t >= ks.cooldown_seconds,
    ensures
        !paused_at(ks, now),
        !after_daily_reset(ks, now).is_triggered,
        after_daily_reset(ks, now).triggered_at is None,
        after_daily_reset(ks, now).consecutive_losses == 0,
        !paused_at(after_daily_reset(ks, now), now),
{
}

/// A daily reset at a time the breaker does not pause trading re-arms it
/// and forgets yesterday's losing streak, whether or not it had tripped; in
/// particular an untripped breaker always starts the day with no streak, so
/// the first loss of the day does not trip it when the limit is above one.
pub proof fn law_reset_rearms_and_forgets_streak(ks: KillSwitch, now: u64, later: u64)
    ensures
        !paused_at(ks, now) ==> (after_daily_reset(ks, now).consecutive_losses == 0
            && !after_daily_reset(ks, now).is_triggered && after_daily_reset(ks, now).triggered_at
            is None),
        !ks.is_triggered ==> (after_daily_reset(ks, now).consecutive_losses == 0
            && !after_daily_reset(ks, now).is_triggered && after_daily_reset(ks, now).triggered_at
            is None),
        (ks.triggered_at == Some(later) && ks.is_triggered && now >= later && now - later
            >= ks.cooldown_seconds) ==> after_daily_reset(ks, now).consecutive_losses == 0,
        (!ks.is_triggered && ks.max_consecutive_losses > 1) ==> !after_trade(
            after_daily_reset(ks, now),
            true,
            false,
            later,
        ).is_triggered,
        after_daily_reset(ks, now).max_consecutive_losses == ks.max_consecutive_losses,
        after_daily_reset(ks, now).cooldown_seconds == ks.cooldown_seconds,
{
}

/// A daily reset leaves a breaker that still pauses trading untouched.
pub proof fn law_reset_keeps_active_pause(ks: KillSwitch, now: u64)
    requires
        paused_at(ks, now),
    ensures
        after_daily_reset(ks, now) == ks,
{
}

} // verus!
