use sol_trade_sdk::error::ProviderError;
use sol_trade_sdk::poller::{status_report, Commitment, ConfirmationPoller, PollState, StatusReport};

#[test]
fn confirms_at_or_above_required_commitment() {
    let mut p = ConfirmationPoller::new(Commitment::Confirmed, 5);
    p.observe(StatusReport::Seen { level: Commitment::Processed, error: None });
    assert_eq!(p.state, PollState::Pending { polls: 1 });
    p.observe(StatusReport::Seen { level: Commitment::Finalized, error: None });
    assert_eq!(p.state, PollState::Confirmed);
    assert!(p.is_done());
    assert_eq!(p.outcome(), Some(Ok(())));
    p.observe(StatusReport::NotFound);
    assert_eq!(p.state, PollState::Confirmed);
}

#[test]
fn times_out_after_exactly_two_intervals() {
    let mut p = ConfirmationPoller::new(Commitment::Finalized, 2);
    p.observe(StatusReport::NotFound);
    assert_eq!(p.state, PollState::Pending { polls: 1 });
    assert!(!p.is_done());
    assert_eq!(p.outcome(), None);
    p.observe(StatusReport::NotFound);
    assert_eq!(p.state, PollState::TimedOut);
    assert_eq!(p.outcome(), Some(Err(ProviderError::ConfirmationTimeout)));
}

#[test]
fn on_chain_error_fails_without_retry() {
    let mut p = ConfirmationPoller::new(Commitment::Confirmed, 3);
    p.observe(StatusReport::Seen { level: Commitment::Confirmed, error: Some("InstructionError".to_string()) });
    assert_eq!(p.state, PollState::Failed("InstructionError".to_string()));
    assert_eq!(p.outcome(), Some(Err(ProviderError::ConfirmationFailed("InstructionError".to_string()))));
    p.observe(StatusReport::Seen { level: Commitment::Finalized, error: None });
    assert_eq!(p.state, PollState::Failed("InstructionError".to_string()));
}

#[test]
fn commitment_order() {
    assert!(Commitment::Finalized.reaches(Commitment::Confirmed));
    assert!(Commitment::Confirmed.reaches(Commitment::Confirmed));
    assert!(!Commitment::Processed.reaches(Commitment::Confirmed));
}

#[test]
fn maps_node_status_entries() {
    assert_eq!(status_report(None), StatusReport::NotFound);
    assert_eq!(
        status_report(Some((Some("finalized".to_string()), None))),
        StatusReport::Seen { level: Commitment::Finalized, error: None }
    );
    assert_eq!(
        status_report(Some((Some("confirmed".to_string()), Some("err".to_string())))),
        StatusReport::Seen { level: Commitment::Confirmed, error: Some("err".to_string()) }
    );
    assert_eq!(
        status_report(Some((None, None))),
        StatusReport::Seen { level: Commitment::Processed, error: None }
    );
}
