//! Per-symbol cooldown tracker that keeps the swarm from overtrading.

use vstd::prelude::*;
use vstd::hash_map::StringHashMap;
use crate::clock::now_epoch;

verus! {

/// When a cooldown started at `now` for `seconds` expires; a sum beyond
/// the range of `u64` saturates at `u64::MAX`.
pub open spec fn cooldown_expiry(now: u64, seconds: u64) -> u64 {
    if now + seconds > u64::MAX {
        u64::MAX
    } else {
        (now + seconds) as u64
    }
}

/// Whether `symbol` may trade at time `now`: a symbol in cooldown may trade
/// once `now` reaches the expiry; a symbol never put in cooldown always may.
pub open spec fn clear_at(cooldowns: Map<Seq<char>, u64>, symbol: Seq<char>, now: u64) -> bool {
    cooldowns.contains_key(symbol) ==> now >= cooldowns[symbol]
}

/// Per-symbol cooldown tracker.
pub struct CooldownGate {
    /// symbol -> epoch second at which its cooldown expires
    cooldowns: StringHashMap<u64>,
    /// Length of the cooldown that `start_cooldown` starts.
    pub default_cooldown_seconds: u64,
}

impl CooldownGate {
    /// The expiry of each symbol's cooldown.
    pub closed spec fn cooldowns(&self) -> Map<Seq<char>, u64> {
        self.cooldowns@
    }

    /// The length of the cooldown that `start_cooldown` starts.
    pub closed spec fn cooldown_seconds(&self) -> u64 {
        self.default_cooldown_seconds
    }

    /// A gate with no symbol in cooldown.
    pub fn new(cooldown_seconds: u64) -> (g: Self)
        ensures
            g.cooldowns() == Map::<Seq<char>, u64>::empty(),
            g.cooldown_seconds() == cooldown_seconds,
    {
        CooldownGate { cooldowns: StringHashMap::new(), default_cooldown_seconds: cooldown_seconds }
    }

    /// Whether `symbol` is clear to trade at time `now`.
    pub fn is_clear_at(&self, symbol: &str, now: u64) -> (clear: bool)
        ensures
            clear == clear_at(self.cooldowns(), symbol@, now),
    {
        match self.cooldowns.get(symbol) {
            Some(expires_at) => now >= *expires_at,
            None => true,
        }
    }

    /// Whether `symbol` is clear to trade now, by the system clock.
    pub fn is_clear(&self, symbol: &str) -> (clear: bool)
        ensures
            !self.cooldowns().contains_key(symbol@) ==> clear,
            self.cooldowns().contains_key(symbol@) && self.cooldowns()[symbol@] == 0 ==> clear,
    {
        let now = now_epoch();
        self.is_clear_at(symbol, now)
    }

    /// Start the default cooldown for `symbol` at time `now`, replacing any
    /// cooldown it had.
    pub fn start_cooldown_at(&mut self, symbol: &str, now: u64)
        ensures
            final(self).cooldowns() == old(self).cooldowns().insert(
                symbol@,
                cooldown_expiry(now, old(self).cooldown_seconds()),
            ),
            final(self).cooldown_seconds() == old(self).cooldown_seconds(),
    {
        let expires = now.saturating_add(self.default_cooldown_seconds);
        self.cooldowns.insert(symbol.to_owned(), expires);
    }

    /// Start the default cooldown for `symbol` now, by the system clock.
    pub fn start_cooldown(&mut self, symbol: &str)
        ensures
            exists|now: u64|
                final(self).cooldowns() == old(self).cooldowns().insert(
                    symbol@,
                    #[trigger] cooldown_expiry(now, old(self).cooldown_seconds()),
                ),
            final(self).cooldown_seconds() == old(self).cooldown_seconds(),
    {
        let now = now_epoch();
        self.start_cooldown_at(symbol, now);
    }
}

impl Default for CooldownGate {
    /// A gate with no symbol in cooldown and a zero-length default cooldown.
    fn default() -> (g: Self)
        ensures
            g.cooldowns() == Map::<Seq<char>, u64>::empty(),
            g.cooldown_seconds() == 0,
    {
        CooldownGate::new(0)
    }
}

/// A cooldown blocks its symbol from the moment it starts until it expires,
/// and only its symbol: with a positive cooldown started at `now` (and no
/// overflow), the symbol is not clear at `now` nor at any time before
/// `now + seconds`, is clear from `now + seconds` on, and every other
/// symbol is as clear as it was.
pub proof fn law_cooldown_blocks_until_expiry(
    cooldowns: Map<Seq<char>, u64>,
    symbol: Seq<char>,
    other: Seq<char>,
    now: u64,
    seconds: u64,
    later: u64,
)
    requires
        seconds > 0,
        now + seconds <= u64::MAX,
        other != symbol,
    ensures
        ({
            let after = cooldowns.insert(symbol, cooldown_expiry(now, seconds));
            &&& !clear_at(after, symbol, now)
            &&& (now <= later < now + seconds ==> !clear_at(after, symbol, later))
            &&& (later >= now + seconds ==> clear_at(after, symbol, later))
            &&& clear_at(after, other, later) == clear_at(cooldowns, other, later)
        }),
{
}

} // verus!
