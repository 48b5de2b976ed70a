use x402_swarm::consensus::{
    check_consensus_reached, legacy_active_votes, regime_action, signal_action, Action, Ballot,
    PolicyGovernor, Resolution, WaitReason,
};

// The ballots are the votes that pass the governor's confidence band; the
// band itself (a float test) is applied before the governor sees them.
fn ballot(name: &str, action: Action) -> Ballot {
    Ballot { agent_name: name.to_string(), action }
}

#[test]
fn test_legacy_compat() {
    assert!(check_consensus_reached(3, 2));
    assert!(!check_consensus_reached(1, 2));
}

#[test]
fn legacy_threshold_is_inclusive() {
    assert!(check_consensus_reached(2, 2));
    assert!(check_consensus_reached(0, 0));
}

#[test]
fn test_unanimous_buy() {
    let gov = PolicyGovernor::new();
    let r = gov.resolve(&vec![
        ballot("signal", Action::Buy),
        ballot("trend", Action::Buy),
        ballot("regime", Action::Buy),
    ]);
    assert_eq!(r.action, Action::Buy);
    assert!(!r.vetoed);
    assert_eq!(r.majority, Some(Action::Buy));
    assert_eq!(r.reason, None);
}

#[test]
fn test_trend_veto() {
    let gov = PolicyGovernor::new();
    let r = gov.resolve(&vec![
        ballot("signal", Action::Buy),
        ballot("trend", Action::Sell),
        ballot("regime", Action::Buy),
    ]);
    assert_eq!(
        r,
        Resolution {
            action: Action::Wait,
            vetoed: true,
            majority: Some(Action::Buy),
            reason: Some(WaitReason::TrendVeto { majority: Action::Buy, trend: Action::Sell }),
        }
    );
    assert_eq!(r.reason.unwrap().message(), "Trend veto: BUY signal against SELL trend");
}

#[test]
fn counter_trend_allowed_without_alignment() {
    let gov = PolicyGovernor { require_trend_alignment: false, min_votes_for_action: 2 };
    let r = gov.resolve(&vec![
        ballot("signal", Action::Buy),
        ballot("trend", Action::Sell),
        ballot("regime", Action::Buy),
    ]);
    assert_eq!(r.action, Action::Buy);
    assert!(!r.vetoed);
}

#[test]
fn no_valid_ballot_waits() {
    let gov = PolicyGovernor::new();
    let r = gov.resolve(&vec![]);
    assert_eq!(r.action, Action::Wait);
    assert_eq!(r.reason, Some(WaitReason::NoValidVotes));
    assert_eq!(r.majority, None);
    assert_eq!(r.reason.unwrap().message(), "No votes passed confidence band");
}

#[test]
fn single_vote_is_insufficient() {
    let gov = PolicyGovernor::new();
    let r = gov.resolve(&vec![ballot("regime", Action::Buy)]);
    assert_eq!(r.action, Action::Wait);
    assert!(!r.vetoed);
    assert_eq!(r.reason, Some(WaitReason::InsufficientVotes { count: 1, required: 2 }));
    assert_eq!(r.reason.unwrap().message(), "Insufficient votes: 1 < 2");
}

#[test]
fn test_vote_tie() {
    let gov = PolicyGovernor::new();
    let r = gov.resolve(&vec![
        ballot("signal", Action::Buy),
        ballot("trend", Action::Sell),
        ballot("regime", Action::Wait),
    ]);
    assert_eq!(r.action, Action::Wait);
    assert_eq!(r.reason, Some(WaitReason::Tie));
    assert_eq!(r.reason.unwrap().message(), "Vote tie \u{2014} defaulting to WAIT");
}

#[test]
fn mirrored_ballots_mirror_the_decision() {
    let gov = PolicyGovernor::new();
    let r = gov.resolve(&vec![
        ballot("signal", Action::Sell),
        ballot("trend", Action::Sell),
        ballot("regime", Action::Sell),
    ]);
    assert_eq!(r.action, Action::Sell);
    let v = gov.resolve(&vec![
        ballot("signal", Action::Sell),
        ballot("trend", Action::Buy),
        ballot("regime", Action::Sell),
    ]);
    assert_eq!(v.action, Action::Wait);
    assert!(v.vetoed);
}

#[test]
fn first_trend_ballot_counts_for_the_veto() {
    let gov = PolicyGovernor::new();
    let r = gov.resolve(&vec![
        ballot("trend", Action::Wait),
        ballot("signal", Action::Buy),
        ballot("trend", Action::Sell),
        ballot("regime", Action::Buy),
        ballot("extra", Action::Buy),
    ]);
    assert_eq!(r.action, Action::Buy);
}

#[test]
fn labels_and_loop_votes() {
    assert_eq!(Action::Buy.label(), "BUY");
    assert_eq!(Action::Sell.label(), "SELL");
    assert_eq!(Action::Wait.label(), "WAIT");
    assert_eq!(signal_action(true), Action::Buy);
    assert_eq!(signal_action(false), Action::Wait);
    assert_eq!(regime_action(Some(true)), Action::Buy);
    assert_eq!(regime_action(Some(false)), Action::Wait);
    assert_eq!(regime_action(None), Action::Wait);
    assert_eq!(legacy_active_votes(Some(true), Some(true)), 2);
    assert_eq!(legacy_active_votes(Some(true), None), 1);
    assert_eq!(legacy_active_votes(Some(false), Some(false)), 0);
}
