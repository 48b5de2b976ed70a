//! Multi-agent consensus: the policy governor that turns the votes of the
//! signal, trend and regime sub-agents into one trading action.
//!
//! The governor sees the votes that passed the confidence band; the band test
//! and the averaging of confidences are done by the caller.

use vstd::prelude::*;
use crate::text::{decimal, decimal_string};

verus! {

/// A trading action proposed by a sub-agent or decided by the governor.
#[derive(Clone, Copy, Debug, PartialEq, Eq, Structural)]
pub enum Action {
    Buy,
    Sell,
    Wait,
}

impl Action {
    /// The upper-case label of the action, as shown in logs and reasons.
    pub fn label(&self) -> (s: &'static str)
        ensures
            s@ == action_label(*self),
    {
        match self {
            Action::Buy => "BUY",
            Action::Sell => "SELL",
            Action::Wait => "WAIT",
        }
    }
}

/// Label of an action: "BUY", "SELL" or "WAIT".
pub open spec fn action_label(a: Action) -> Seq<char> {
    match a {
        Action::Buy => "BUY"@,
        Action::Sell => "SELL"@,
        Action::Wait => "WAIT"@,
    }
}

/// One vote that passed the confidence band: who cast it and what it proposes.
#[derive(Debug)]
pub struct Ballot {
    pub agent_name: String,
    pub action: Action,
}

/// Why the governor decided to wait.
#[derive(Clone, Copy, Debug, PartialEq, Eq, Structural)]
pub enum WaitReason {
    /// No vote passed the confidence band.
    NoValidVotes,
    /// Buy and sell votes are equally many.
    Tie,
    /// The majority direction has fewer votes than the governor requires.
    InsufficientVotes { count: usize, required: usize },
    /// The majority direction runs against the trend agent's vote.
    TrendVeto { majority: Action, trend: Action },
}

/// The governor's answer for one round of votes.
#[derive(Clone, Copy, Debug, PartialEq, Eq, Structural)]
pub struct Resolution {
    /// The decided action.
    pub action: Action,
    /// True when the trend veto blocked the majority.
    pub vetoed: bool,
    /// The strict majority direction, when there is one.
    pub majority: Option<Action>,
    /// Why the governor waits, when it does.
    pub reason: Option<WaitReason>,
}

/// Multi-agent consensus governor.
pub struct PolicyGovernor {
    /// Block a majority that runs against the trend agent's direction.
    pub require_trend_alignment: bool,
    /// Votes the majority direction needs before the governor acts on it.
    pub min_votes_for_action: usize,
}

/// Name under which the trend agent votes.
pub open spec fn trend_agent() -> Seq<char> {
    "trend"@
}

/// Number of ballots in `bs` that propose `a`.
pub open spec fn count_action(bs: Seq<Ballot>, a: Action) -> nat
    decreases bs.len(),
{
    if bs.len() == 0 {
        0
    } else {
        count_action(bs.drop_last(), a) + if bs.last().action == a { 1nat } else { 0nat }
    }
}

/// The action of the first ballot at index `i` or later that the trend agent cast.
pub open spec fn trend_vote_from(bs: Seq<Ballot>, i: int) -> Option<Action>
    decreases bs.len() - i,
{
    if i < 0 || i >= bs.len() {
        None
    } else if bs[i].agent_name@ == trend_agent() {
        Some(bs[i].action)
    } else {
        trend_vote_from(bs, i + 1)
    }
}

/// The action of the first ballot that the trend agent cast.
pub open spec fn trend_vote(bs: Seq<Ballot>) -> Option<Action> {
    trend_vote_from(bs, 0)
}

/// A buy against a sell trend, or a sell against a buy trend.
pub open spec fn is_counter_trend(majority: Action, trend: Action) -> bool {
    (majority == Action::Buy && trend == Action::Sell) || (majority == Action::Sell
        && trend == Action::Buy)
}

/// A decision to wait.
pub open spec fn wait_with(vetoed: bool, majority: Option<Action>, reason: WaitReason) -> Resolution {
    Resolution { action: Action::Wait, vetoed, majority, reason: Some(reason) }
}

/// The governor's rules, in order:
/// 1. no valid ballot: wait;
/// 2. the strict majority of buy versus sell ballots gives the direction; a tie waits;
/// 3. a majority below the minimum vote count waits;
/// 4. with trend alignment required, a majority against the trend agent's vote is vetoed;
/// 5. otherwise the majority direction is the decision.
pub open spec fn resolution_of(gov: PolicyGovernor, bs: Seq<Ballot>) -> Resolution {
    let buys = count_action(bs, Action::Buy);
    let sells = count_action(bs, Action::Sell);
    if bs.len() == 0 {
        wait_with(false, None, WaitReason::NoValidVotes)
    } else if buys == sells {
        wait_with(false, None, WaitReason::Tie)
    } else {
        let majority = if buys > sells { Action::Buy } else { Action::Sell };
        let count = if buys > sells { buys } else { sells };
        if count < gov.min_votes_for_action {
            wait_with(
                false,
                Some(majority),
                WaitReason::InsufficientVotes {
                    count: count as usize,
                    required: gov.min_votes_for_action,
                },
            )
        } else if gov.require_trend_alignment && trend_vote(bs) is Some && is_counter_trend(
            majority,
            trend_vote(bs)->0,
        ) {
            wait_with(
                true,
                Some(majority),
                WaitReason::TrendVeto { majority, trend: trend_vote(bs)->0 },
            )
        } else {
            Resolution { action: majority, vetoed: false, majority: Some(majority), reason: None }
        }
    }
}

proof fn lemma_count_bounded(bs: Seq<Ballot>, a: Action)
    ensures
        count_action(bs, a) <= bs.len(),
    decreases bs.len(),
{
    if bs.len() > 0 {
        lemma_count_bounded(bs.drop_last(), a);
    }
}


/// Buy and sell swapped, hold unchanged.
pub open spec fn mirror_action(a: Action) -> Action {
    match a {
        Action::Buy => Action::Sell,
        Action::Sell => Action::Buy,
        Action::Wait => Action::Wait,
    }
}

/// The same ballots with every buy turned into a sell and every sell into a buy.
pub open spec fn mirror_ballots(bs: Seq<Ballot>) -> Seq<Ballot> {
    Seq::new(
        bs.len(),
        |i: int| Ballot { agent_name: bs[i].agent_name, action: mirror_action(bs[i].action) },
    )
}

proof fn lemma_mirror_count(bs: Seq<Ballot>, a: Action)
    ensures
        count_action(mirror_ballots(bs), mirror_action(a)) == count_action(bs, a),
    decreases bs.len(),
{
    if bs.len() > 0 {
        assert(mirror_ballots(bs).drop_last() =~= mirror_ballots(bs.drop_last()));
        lemma_mirror_count(bs.drop_last(), a);
    }
}

proof fn lemma_mirror_trend(bs: Seq<Ballot>, i: int)
    ensures
        trend_vote_from(mirror_ballots(bs), i) == (match trend_vote_from(bs, i) {
            Some(t) => Some(mirror_action(t)),
            None => None,
        }),
    decreases bs.len() - i,
{
    if 0 <= i < bs.len() {
        lemma_mirror_trend(bs, i + 1);
    }
}

/// The governor acts only on an aligned majority: an action other than
/// wait is the strict majority of buy versus sell ballots, has at least the
/// required number of votes and does not run against the trend agent when
/// alignment is required. A tie, or no ballot at all, always waits, and a
/// veto always waits.
pub proof fn law_action_needs_aligned_majority(gov: PolicyGovernor, bs: Seq<Ballot>)
    ensures
        ({
            let r = resolution_of(gov, bs);
            let buys = count_action(bs, Action::Buy);
            let sells = count_action(bs, Action::Sell);
            &&& r.action == Action::Buy ==> buys > sells && buys >= gov.min_votes_for_action
            &&& r.action == Action::Sell ==> sells > buys && sells >= gov.min_votes_for_action
            &&& r.action != Action::Wait ==> !(gov.require_trend_alignment
                && trend_vote(bs) is Some && is_counter_trend(r.action, trend_vote(bs)->0))
            &&& buys == sells ==> r.action == Action::Wait
            &&& r.vetoed ==> r.action == Action::Wait
        }),
{
}

/// The veto answers only a trend vote against the majority: a vetoed
/// decision always has a trend ballot that runs against its majority, and
/// without any trend ballot a majority that reaches the minimum vote count
/// is executed as it is.
pub proof fn law_veto_needs_counter_trend_vote(gov: PolicyGovernor, bs: Seq<Ballot>)
    ensures
        ({
            let r = resolution_of(gov, bs);
            let buys = count_action(bs, Action::Buy);
            let sells = count_action(bs, Action::Sell);
            &&& r.vetoed ==> gov.require_trend_alignment && trend_vote(bs) is Some && r.majority
                is Some && ((r.majority->0 == Action::Buy && trend_vote(bs)->0 == Action::Sell)
                || (r.majority->0 == Action::Sell && trend_vote(bs)->0 == Action::Buy))
            &&& (trend_vote(bs) is None && buys > sells && buys >= gov.min_votes_for_action) ==> (
            r.action == Action::Buy && !r.vetoed && r.reason is None)
            &&& (trend_vote(bs) is None && sells > buys && sells >= gov.min_votes_for_action) ==> (
            r.action == Action::Sell && !r.vetoed && r.reason is None)
        }),
{
}

/// A majority that reaches the minimum vote count is executed unless the
/// trend agent voted the other way (and alignment is required): a trend
/// ballot for the same direction, or for waiting, never blocks it.
pub proof fn law_aligned_majority_is_executed(gov: PolicyGovernor, bs: Seq<Ballot>)
    ensures
        ({
            let r = resolution_of(gov, bs);
            let buys = count_action(bs, Action::Buy);
            let sells = count_action(bs, Action::Sell);
            &&& (buys > sells && buys >= gov.min_votes_for_action && !(gov.require_trend_alignment
                && trend_vote(bs) == Some(Action::Sell))) ==> r.action == Action::Buy
            &&& (sells > buys && sells >= gov.min_votes_for_action && !(gov.require_trend_alignment
                && trend_vote(bs) == Some(Action::Buy))) ==> r.action == Action::Sell
            &&& (buys > sells && buys >= gov.min_votes_for_action && gov.require_trend_alignment
                && trend_vote(bs) == Some(Action::Sell)) ==> (r.action == Action::Wait && r.vetoed)
            &&& (sells > buys && sells >= gov.min_votes_for_action && gov.require_trend_alignment
                && trend_vote(bs) == Some(Action::Buy)) ==> (r.action == Action::Wait && r.vetoed)
        }),
{
}

/// Swapping buy and sell in every ballot swaps buy and sell in the decision
/// and leaves the veto unchanged: the governor favours neither direction.
pub proof fn law_mirror_symmetry(gov: PolicyGovernor, bs: Seq<Ballot>)
    ensures
        resolution_of(gov, mirror_ballots(bs)).action == mirror_action(resolution_of(gov, bs).action),
        resolution_of(gov, mirror_ballots(bs)).vetoed == resolution_of(gov, bs).vetoed,
{
    lemma_mirror_count(bs, Action::Buy);
    lemma_mirror_count(bs, Action::Sell);
    lemma_mirror_trend(bs, 0);
}

impl PolicyGovernor {
    /// The default governor: trend alignment required, two votes needed.
    pub fn new() -> (gov: Self)
        ensures
            gov.require_trend_alignment,
            gov.min_votes_for_action == 2,
    {
        PolicyGovernor { require_trend_alignment: true, min_votes_for_action: 2 }
    }

    /// Resolve the ballots that passed the confidence band into one decision.
    pub fn resolve(&self, ballots: &Vec<Ballot>) -> (r: Resolution)
        ensures
            r == resolution_of(*self, ballots@),
    {
        if ballots.len() == 0 {
            return Resolution {
                action: Action::Wait,
                vetoed: false,
                majority: None,
                reason: Some(WaitReason::NoValidVotes),
            };
        }
        let trend_name = String::from_str("trend");
        proof {
            reveal_strlit("trend");
        }
        let mut trend: Option<Action> = None;
        let mut buys: usize = 0;
        let mut sells: usize = 0;
        let mut i: usize = 0;
        while i < ballots.len()
            invariant
                0 <= i <= ballots.len(),
                trend_name@ == trend_agent(),
                buys == count_action(ballots@.take(i as int), Action::Buy),
                sells == count_action(ballots@.take(i as int), Action::Sell),
                trend is None ==> trend_vote(ballots@) == trend_vote_from(ballots@, i as int),
                trend is Some ==> trend == trend_vote(ballots@),
            decreases ballots.len() - i,
        {
            let b = &ballots[i];
            proof {
                assert(ballots@.take(i + 1).drop_last() =~= ballots@.take(i as int));
                lemma_count_bounded(ballots@.take(i as int), Action::Buy);
                lemma_count_bounded(ballots@.take(i as int), Action::Sell);
            }
            if trend.is_none() && b.agent_name == trend_name {
                trend = Some(b.action);
            }
            match b.action {
                Action::Buy => {
                    buys = buys + 1;
                },
                Action::Sell => {
                    sells = sells + 1;
                },
                Action::Wait => {},
            }
            i = i + 1;
        }
        proof {
            assert(ballots@.take(ballots@.len() as int) =~= ballots@);
        }
        if buys == sells {
            return Resolution {
                action: Action::Wait,
                vetoed: false,
                majority: None,
                reason: Some(WaitReason::Tie),
            };
        }
        let majority = if buys > sells { Action::Buy } else { Action::Sell };
        let count = if buys > sells { buys } else { sells };
        if count < self.min_votes_for_action {
            return Resolution {
                action: Action::Wait,
                vetoed: false,
                majority: Some(majority),
                reason: Some(
                    WaitReason::InsufficientVotes { count, required: self.min_votes_for_action },
                ),
            };
        }
        if self.require_trend_alignment {
            if let Some(t) = trend {
                let counter = match (majority, t) {
                    (Action::Buy, Action::Sell) => true,
                    (Action::Sell, Action::Buy) => true,
                    _ => false,
                };
                if counter {
                    return Resolution {
                        action: Action::Wait,
                        vetoed: true,
                        majority: Some(majority),
                        reason: Some(WaitReason::TrendVeto { majority, trend: t }),
                    };
                }
            }
        }
        Resolution { action: majority, vetoed: false, majority: Some(majority), reason: None }
    }
}


impl Default for PolicyGovernor {
    /// The default governor.
    fn default() -> (gov: Self)
        ensures
            gov.require_trend_alignment,
            gov.min_votes_for_action == 2,
    {
        PolicyGovernor::new()
    }
}

/// The human-readable reason for waiting.
pub open spec fn wait_message(r: WaitReason) -> Seq<char> {
    match r {
        WaitReason::NoValidVotes => "No votes passed confidence band"@,
        WaitReason::Tie => "Vote tie \u{2014} defaulting to WAIT"@,
        WaitReason::InsufficientVotes { count, required } => "Insufficient votes: "@ + decimal(
            count as nat,
        ) + " < "@ + decimal(required as nat),
        WaitReason::TrendVeto { majority, trend } => "Trend veto: "@ + action_label(majority)
            + " signal against "@ + action_label(trend) + " trend"@,
    }
}

impl WaitReason {
    /// The human-readable reason for waiting.
    pub fn message(&self) -> (s: String)
        ensures
            s@ == wait_message(*self),
    {
        match self {
            WaitReason::NoValidVotes => String::from_str("No votes passed confidence band"),
            WaitReason::Tie => String::from_str("Vote tie \u{2014} defaulting to WAIT"),
            WaitReason::InsufficientVotes { count, required } => {
                let mut s = String::from_str("Insufficient votes: ");
                let c = decimal_string(*count as u64);
                s.append(c.as_str());
                s.append(" < ");
                let r = decimal_string(*required as u64);
                s.append(r.as_str());
                s
            },
            WaitReason::TrendVeto { majority, trend } => {
                let mut s = String::from_str("Trend veto: ");
                s.append(majority.label());
                s.append(" signal against ");
                s.append(trend.label());
                s.append(" trend");
                s
            },
        }
    }
}

/// The signal agent's vote: buy when the liquidator has published a target, else wait.
pub fn signal_action(has_target: bool) -> (a: Action)
    ensures
        a == (if has_target { Action::Buy } else { Action::Wait }),
{
    if has_target {
        Action::Buy
    } else {
        Action::Wait
    }
}

/// The regime agent's vote: buy once the risk agent has approved, else wait.
pub fn regime_action(risk_vote: Option<bool>) -> (a: Action)
    ensures
        a == (if risk_vote == Some(true) { Action::Buy } else { Action::Wait }),
{
    match risk_vote {
        Some(true) => Action::Buy,
        _ => Action::Wait,
    }
}

/// The legacy tally: how many of the sniper and risk agents have voted yes.
pub fn legacy_active_votes(sniper_vote: Option<bool>, risk_vote: Option<bool>) -> (n: usize)
    ensures
        n == (if sniper_vote == Some(true) { 1int } else { 0int }) + (if risk_vote == Some(true) {
            1int
        } else {
            0int
        }),
{
    let mut n: usize = 0;
    if let Some(true) = sniper_vote {
        n = n + 1;
    }
    if let Some(true) = risk_vote {
        n = n + 1;
    }
    n
}

/// Legacy threshold rule: consensus is reached once `votes` reaches `threshold`.
pub fn check_consensus_reached(votes: usize, threshold: usize) -> (reached: bool)
    ensures
        reached == (votes >= threshold),
{
    votes >= threshold
}

} // verus!
