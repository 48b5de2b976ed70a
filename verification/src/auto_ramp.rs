//! Auto-ramp: the deterministic state machine that scales capital through
//! stages. Each stage's amounts are kept by the caller; the ramp decides
//! which stage is current.

use vstd::prelude::*;
use crate::clock::now_epoch;

verus! {

/// Number of stages of the default ramp.
pub const DEFAULT_STAGE_COUNT: u8 = 5;

/// Default minimum time between two promotions: 168 hours (7 days).
pub const DEFAULT_PROMOTION_COOLDOWN_SECONDS: u64 = 604800;

/// Closed trades in the last 96 hours that a promotion needs.
pub const MIN_CLOSED_TRADES_96H: usize = 10;

/// Bucket-cap breaches in the last 96 hours that a promotion tolerates.
pub const MAX_BUCKET_BREACHES_96H: usize = 1;

/// Ticks of the risk loop between two promotion evaluations.
pub const RAMP_EVALUATION_INTERVAL_TICKS: u64 = 100;

/// Whether the risk loop evaluates the ramp for promotion at tick `tick`.
pub fn ramp_evaluation_due(tick: u64) -> (due: bool)
    ensures
        due == (tick % RAMP_EVALUATION_INTERVAL_TICKS == 0),
{
    tick % RAMP_EVALUATION_INTERVAL_TICKS == 0
}

/// The ramp's state.
#[derive(Clone, Copy, Debug)]
pub struct AutoRamp {
    /// Index of the current stage.
    pub current_stage: u8,
    /// Number of stages; the last one is `stage_count - 1`.
    pub stage_count: u8,
    /// When the ramp was last promoted.
    pub last_promotion_epoch: u64,
    /// Minimum time between two promotions.
    pub promotion_cooldown: u64,
}

/// The five promotion gates: enough closed trades, a positive 7-day result,
/// no kill-switch incident, at most one bucket-cap breach, and the
/// cooldown elapsed since the last promotion (a clock reading before the
/// last promotion counts as no time elapsed).
pub open spec fn gates_pass(
    ramp: AutoRamp,
    closed_trades_96h: usize,
    pnl_7d_positive: bool,
    kill_switch_incidents_96h: usize,
    bucket_breaches_96h: usize,
    now: u64,
) -> bool {
    &&& closed_trades_96h >= MIN_CLOSED_TRADES_96H
    &&& pnl_7d_positive
    &&& kill_switch_incidents_96h == 0
    &&& bucket_breaches_96h <= MAX_BUCKET_BREACHES_96H
    &&& (if now >= ramp.last_promotion_epoch {
        now - ramp.last_promotion_epoch
    } else {
        0
    }) >= ramp.promotion_cooldown
}

/// Whether the ramp is promoted: it is not at its last stage and every gate passes.
pub open spec fn promotes(
    ramp: AutoRamp,
    closed_trades_96h: usize,
    pnl_7d_positive: bool,
    kill_switch_incidents_96h: usize,
    bucket_breaches_96h: usize,
    now: u64,
) -> bool {
    &&& ramp.current_stage + 1 < ramp.stage_count
    &&& gates_pass(
        ramp,
        closed_trades_96h,
        pnl_7d_positive,
        kill_switch_incidents_96h,
        bucket_breaches_96h,
        now,
    )
}

/// The ramp after a promotion evaluated at `now`: promoted by one stage and
/// stamped with `now`, or unchanged.
pub open spec fn after_evaluation(
    ramp: AutoRamp,
    closed_trades_96h: usize,
    pnl_7d_positive: bool,
    kill_switch_incidents_96h: usize,
    bucket_breaches_96h: usize,
    now: u64,
) -> AutoRamp {
    if promotes(
        ramp,
        closed_trades_96h,
        pnl_7d_positive,
        kill_switch_incidents_96h,
        bucket_breaches_96h,
        now,
    ) {
        AutoRamp {
            current_stage: (ramp.current_stage + 1) as u8,
            last_promotion_epoch: now,
            ..ramp
        }
    } else {
        ramp
    }
}

/// The ramp one stage lower, or unchanged at the first stage.
pub open spec fn after_demotion(ramp: AutoRamp) -> AutoRamp {
    if ramp.current_stage > 0 {
        AutoRamp { current_stage: (ramp.current_stage - 1) as u8, ..ramp }
    } else {
        ramp
    }
}

impl AutoRamp {
    /// The current stage is one of the ramp's stages.
    pub open spec fn well_formed(&self) -> bool {
        self.current_stage < self.stage_count
    }

    /// The default ramp: five stages, starting at the first, promotions at
    /// least 7 days apart.
    pub fn new() -> (ramp: Self)
        ensures
            ramp.current_stage == 0,
            ramp.stage_count == DEFAULT_STAGE_COUNT,
            ramp.last_promotion_epoch == 0,
            ramp.promotion_cooldown == DEFAULT_PROMOTION_COOLDOWN_SECONDS,
            ramp.well_formed(),
    {
        AutoRamp {
            current_stage: 0,
            stage_count: DEFAULT_STAGE_COUNT,
            last_promotion_epoch: 0,
            promotion_cooldown: DEFAULT_PROMOTION_COOLDOWN_SECONDS,
        }
    }

    /// Evaluate the five promotion gates at time `now`; promote by one stage
    /// when all pass. Returns whether the ramp was promoted.
    pub fn evaluate_promotion_at(
        &mut self,
        closed_trades_96h: usize,
        pnl_7d_positive: bool,
        kill_switch_incidents_96h: usize,
        bucket_breaches_96h: usize,
        now: u64,
    ) -> (promoted: bool)
        ensures
            promoted == promotes(
                *old(self),
                closed_trades_96h,
                pnl_7d_positive,
                kill_switch_incidents_96h,
                bucket_breaches_96h,
                now,
            ),
            *final(self) == after_evaluation(
                *old(self),
                closed_trades_96h,
                pnl_7d_positive,
                kill_switch_incidents_96h,
                bucket_breaches_96h,
                now,
            ),
    {
        let next = self.current_stage as u16 + 1;
        if next >= self.stage_count as u16 {
            return false;
        }
        if closed_trades_96h < MIN_CLOSED_TRADES_96H {
            return false;
        }
        if !pnl_7d_positive {
            return false;
        }
        if kill_switch_incidents_96h > 0 {
            return false;
        }
        if bucket_breaches_96h > MAX_BUCKET_BREACHES_96H {
            return false;
        }
        let elapsed = now.saturating_sub(self.last_promotion_epoch);
        if elapsed < self.promotion_cooldown {
            return false;
        }
        self.current_stage = next as u8;
        self.last_promotion_epoch = now;
        true
    }

    /// Evaluate the five promotion gates now, by the system clock.
    pub fn evaluate_promotion(
        &mut self,
        closed_trades_96h: usize,
        pnl_7d_positive: bool,
        kill_switch_incidents_96h: usize,
        bucket_breaches_96h: usize,
    ) -> (promoted: bool)
        ensures
            exists|now: u64|
                #![trigger promotes(*old(self), closed_trades_96h, pnl_7d_positive, kill_switch_incidents_96h, bucket_breaches_96h, now)]
                promoted == promotes(
                    *old(self),
                    closed_trades_96h,
                    pnl_7d_positive,
                    kill_switch_incidents_96h,
                    bucket_breaches_96h,
                    now,
                ) && *final(self) == after_evaluation(
                    *old(self),
                    closed_trades_96h,
                    pnl_7d_positive,
                    kill_switch_incidents_96h,
                    bucket_breaches_96h,
                    now,
                ),
    {
        let now = now_epoch();
        self.evaluate_promotion_at(
            closed_trades_96h,
            pnl_7d_positive,
            kill_switch_incidents_96h,
            bucket_breaches_96h,
            now,
        )
    }

    /// Hard demotion after a kill-switch trip: drop one stage, unless at the first.
    pub fn hard_demote(&mut self)
        ensures
            *final(self) == after_demotion(*old(self)),
    {
        if self.current_stage > 0 {
            self.current_stage = self.current_stage - 1;
        }
    }
}

impl Default for AutoRamp {
    /// The default ramp.
    fn default() -> (ramp: Self)
        ensures
            ramp.current_stage == 0,
            ramp.stage_count == DEFAULT_STAGE_COUNT,
            ramp.last_promotion_epoch == 0,
            ramp.promotion_cooldown == DEFAULT_PROMOTION_COOLDOWN_SECONDS,
    {
        AutoRamp::new()
    }
}

/// The five gates, each on the evaluation's inputs alone and whatever the
/// current stage: a promotion needs at least 10 closed trades in 96 hours,
/// a positive 7-day result, no kill-switch incident, at most one
/// bucket-cap breach, and the promotion cooldown elapsed since the last
/// promotion (a clock reading before the last promotion counts as no time
/// elapsed); below the last stage, passing all five promotes.
pub proof fn law_promotion_gates(
    ramp: AutoRamp,
    closed_trades_96h: usize,
    pnl_7d_positive: bool,
    kill_switch_incidents_96h: usize,
    bucket_breaches_96h: usize,
    now: u64,
)
    ensures
        promotes(
            ramp,
            closed_trades_96h,
            pnl_7d_positive,
            kill_switch_incidents_96h,
            bucket_breaches_96h,
            now,
        ) ==> {
            &&& closed_trades_96h >= 10
            &&& pnl_7d_positive
            &&& kill_switch_incidents_96h == 0
            &&& bucket_breaches_96h <= 1
            &&& (if now >= ramp.last_promotion_epoch {
                now - ramp.last_promotion_epoch
            } else {
                0
            }) >= ramp.promotion_cooldown
            &&& (ramp.promotion_cooldown > 0 ==> now >= ramp.last_promotion_epoch)
            &&& ramp.current_stage + 1 < ramp.stage_count
        },
        (ramp.current_stage + 1 < ramp.stage_count && closed_trades_96h >= 10 && pnl_7d_positive
            && kill_switch_incidents_96h == 0 && bucket_breaches_96h <= 1 && now
            >= ramp.last_promotion_epoch && now - ramp.last_promotion_epoch
            >= ramp.promotion_cooldown) ==> promotes(
            ramp,
            closed_trades_96h,
            pnl_7d_positive,
            kill_switch_incidents_96h,
            bucket_breaches_96h,
            now,
        ),
        kill_switch_incidents_96h > 0 ==> after_evaluation(
            ramp,
            closed_trades_96h,
            pnl_7d_positive,
            kill_switch_incidents_96h,
            bucket_breaches_96h,
            now,
        ) == ramp,
{
}

/// The ramp never leaves its stages: promotion and demotion keep a
/// well-formed ramp well-formed.
pub proof fn law_ramp_stays_in_range(
    ramp: AutoRamp,
    closed_trades_96h: usize,
    pnl_7d_positive: bool,
    kill_switch_incidents_96h: usize,
    bucket_breaches_96h: usize,
    now: u64,
)
    requires
        ramp.well_formed(),
    ensures
        after_evaluation(
            ramp,
            closed_trades_96h,
            pnl_7d_positive,
            kill_switch_incidents_96h,
            bucket_breaches_96h,
            now,
        ).well_formed(),
        after_demotion(ramp).well_formed(),
{
}

/// Promotion climbs exactly one stage, and only when every gate passes; a
/// hard demotion right after it returns the ramp to the stage it left.
pub proof fn law_promotion_one_stage_and_undone_by_demotion(
    ramp: AutoRamp,
    closed_trades_96h: usize,
    pnl_7d_positive: bool,
    kill_switch_incidents_96h: usize,
    bucket_breaches_96h: usize,
    now: u64,
)
    requires
        promotes(
            ramp,
            closed_trades_96h,
            pnl_7d_positive,
            kill_switch_incidents_96h,
            bucket_breaches_96h,
            now,
        ),
    ensures
        gates_pass(
            ramp,
            closed_trades_96h,
            pnl_7d_positive,
            kill_switch_incidents_96h,
            bucket_breaches_96h,
            now,
        ),
        after_evaluation(
            ramp,
            closed_trades_96h,
            pnl_7d_positive,
            kill_switch_incidents_96h,
            bucket_breaches_96h,
            now,
        ).current_stage == ramp.current_stage + 1,
        after_demotion(
            after_evaluation(
                ramp,
                closed_trades_96h,
                pnl_7d_positive,
                kill_switch_incidents_96h,
                bucket_breaches_96h,
                now,
            ),
        ).current_stage == ramp.current_stage,
{
}

/// Two promotions need the cooldown between them: right after a promotion
/// at `now`, no evaluation from `now` until `now + promotion_cooldown` promotes again.
pub proof fn law_promotions_spaced_by_cooldown(
    ramp: AutoRamp,
    closed_trades_96h: usize,
    pnl_7d_positive: bool,
    kill_switch_incidents_96h: usize,
    bucket_breaches_96h: usize,
    now: u64,
    c2: usize,
    p2: bool,
    k2: usize,
    b2: usize,
    later: u64,
)
    requires
        promotes(
            ramp,
            closed_trades_96h,
            pnl_7d_positive,
            kill_switch_incidents_96h,
            bucket_breaches_96h,
            now,
        ),
        now <= later < now + ramp.promotion_cooldown,
    ensures
        !promotes(
            after_evaluation(
                ramp,
                closed_trades_96h,
                pnl_7d_positive,
                kill_switch_incidents_96h,
                bucket_breaches_96h,
                now,
            ),
            c2,
            p2,
            k2,
            b2,
            later,
        ),
{
}

} // verus!
