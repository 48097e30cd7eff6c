use asi_faucet::flow::{TransferAction, TransferFlow, TransferStage};
use asi_faucet::selector::SelectError;
use asi_faucet::eligibility::check_eligibility;
use asi_faucet::models::ErrorResponse;
use asi_faucet::replies::{
    balance_reply, deploy_id_reply, deploy_info_failure, gate_reply, invalid_input,
    transfer_reply,
};
use asi_faucet::service::{submission_result, SubmitError};

const LIMIT: u128 = 2_000_000_000_000;

#[test]
fn error_responses_carry_kind_details_and_time() {
    let v = ErrorResponse::validation_error("bad address");
    assert_eq!(v.error, "Validation Error");
    assert_eq!(v.details.as_deref(), Some("bad address"));
    let i = ErrorResponse::internal_error("boom");
    assert_eq!(i.error, "Internal Server Error");
    assert_eq!(i.details.as_deref(), Some("boom"));
    let n = ErrorResponse::new("E".to_string(), None);
    assert_eq!(n.error, "E");
    assert_eq!(n.details, None);
    // an RFC 3339 time: date, 'T', time, offset
    assert!(n.timestamp.len() >= 20);
    assert_eq!(&n.timestamp[4..5], "-");
    assert_eq!(&n.timestamp[10..11], "T");
    assert!(n.timestamp.ends_with("+00:00"));
    let a = ErrorResponse::at("E".to_string(), None, "2024-01-01T00:00:00+00:00".to_string());
    assert_eq!(a.timestamp, "2024-01-01T00:00:00+00:00");
}

#[test]
fn eligible_recipient_passes_the_gate() {
    assert!(gate_reply(check_eligibility(Ok("20000000000".to_string()), LIMIT)).is_ok());
}

#[test]
fn recipient_at_the_limit_is_refused() {
    let r = gate_reply(check_eligibility(Ok("2000000000000".to_string()), LIMIT)).unwrap_err();
    assert_eq!(r.status, 400);
    assert_eq!(r.body.error, "Validation Error");
    assert_eq!(
        r.body.details.as_deref(),
        Some("Address balance exceeds faucet eligibility threshold")
    );
}

#[test]
fn unparsable_balance_is_refused_as_such() {
    let r = gate_reply(check_eligibility(Ok("n/a".to_string()), LIMIT)).unwrap_err();
    assert_eq!(r.status, 400);
    assert_eq!(r.body.error, "Validation Error");
    assert_eq!(
        r.body.details.as_deref(),
        Some("FAUCET: Unable to parse existing balance for address")
    );
}

#[test]
fn failed_read_is_refused_with_the_message() {
    let r = gate_reply(check_eligibility(Err("no route".to_string()), LIMIT)).unwrap_err();
    assert_eq!(r.status, 400);
    assert_eq!(r.body.error, "FAUCET: Balance retrieval failed");
    assert_eq!(r.body.details.as_deref(), Some("no route"));
    let b = balance_reply(Err("no route".to_string())).unwrap_err();
    assert_eq!(b.status, 400);
    assert_eq!(b.body.error, "FAUCET: Balance retrieval failed");
    assert_eq!(b.body.details.as_deref(), Some("no route"));
    assert_eq!(balance_reply(Ok("12".to_string())).unwrap().balance, "12");
}

#[test]
fn transfer_reply_wraps_id_or_message() {
    assert_eq!(transfer_reply(Ok("abc".to_string())).unwrap().deploy_id.as_deref(), Some("abc"));
    let r = transfer_reply(Err("insufficient phlo".to_string())).unwrap_err();
    assert_eq!(r.status, 400);
    assert_eq!(r.body.error, "FAUCET: Transfer failed");
    assert_eq!(r.body.details.as_deref(), Some("insufficient phlo"));
}

#[test]
fn submission_result_is_verbatim() {
    assert_eq!(submission_result(Ok("id1".to_string())).unwrap().value, "id1");
    match submission_result(Err("timeout".to_string())) {
        Err(SubmitError::Rejected(message)) => assert_eq!(message, "timeout"),
        other => panic!("unexpected {:?}", other),
    }
}

#[test]
fn deploy_id_reply_checks_the_shape() {
    assert!(deploy_id_reply(&"a1".repeat(60)).is_ok());
    let r = deploy_id_reply("short").unwrap_err();
    assert_eq!(r.status, 400);
    assert_eq!(r.body.error, "Validation Error");
    assert_eq!(
        r.body.details.as_deref(),
        Some("FAUCET: Invalid deploy ID format (must be 100-160 alphanumeric chars)")
    );
    let f = deploy_info_failure();
    assert_eq!(f.status, 500);
    assert_eq!(f.body.error, "Internal Server Error");
    assert_eq!(f.body.details.as_deref(), Some("FAUCET: Failed to retrieve deploy info"));
    let i = invalid_input("bad");
    assert_eq!(i.status, 400);
    assert_eq!(i.body.details.as_deref(), Some("bad"));
}

#[test]
fn transfer_flow_runs_gate_then_selection_then_submission() {
    let mut flow = TransferFlow::start(LIMIT);
    assert_eq!(flow.current_stage(), TransferStage::ValidatingAddress);
    assert!(matches!(flow.on_address(Ok(())), TransferAction::ReadBalance));
    assert_eq!(flow.current_stage(), TransferStage::ReadingBalance);
    assert!(matches!(flow.on_balance(Ok("20000000000".to_string())), TransferAction::SelectNode));
    assert_eq!(flow.current_stage(), TransferStage::SelectingNode);
    assert!(matches!(flow.on_selection(Ok(1)), TransferAction::Submit(1)));
    assert_eq!(flow.current_stage(), TransferStage::Submitting);
    match flow.on_submission(Ok("deploy-1".to_string())) {
        TransferAction::Reply(Ok(body)) => assert_eq!(body.deploy_id.as_deref(), Some("deploy-1")),
        other => panic!("unexpected {:?}", other),
    }
    assert_eq!(flow.current_stage(), TransferStage::Answered);
}

#[test]
fn transfer_flow_stops_at_the_balance_limit() {
    let mut flow = TransferFlow::start(LIMIT);
    flow.on_address(Ok(()));
    match flow.on_balance(Ok("2000000000000".to_string())) {
        TransferAction::Reply(Err(r)) => {
            assert_eq!(r.status, 400);
            assert_eq!(
                r.body.details.as_deref(),
                Some("Address balance exceeds faucet eligibility threshold")
            );
        }
        other => panic!("unexpected {:?}", other),
    }
    assert_eq!(flow.current_stage(), TransferStage::Answered);
}

#[test]
fn transfer_flow_answers_each_failure() {
    let mut flow = TransferFlow::start(LIMIT);
    match flow.on_address(Err("bad checksum".to_string())) {
        TransferAction::Reply(Err(r)) => {
            assert_eq!((r.status, r.body.error.as_str()), (400, "Validation Error"));
            assert_eq!(r.body.details.as_deref(), Some("bad checksum"));
        }
        other => panic!("unexpected {:?}", other),
    }
    let mut flow = TransferFlow::start(LIMIT);
    flow.on_address(Ok(()));
    match flow.on_balance(Ok("many".to_string())) {
        TransferAction::Reply(Err(r)) => assert_eq!(
            r.body.details.as_deref(),
            Some("FAUCET: Unable to parse existing balance for address")
        ),
        other => panic!("unexpected {:?}", other),
    }
    let mut flow = TransferFlow::start(LIMIT);
    flow.on_address(Ok(()));
    flow.on_balance(Ok("1".to_string()));
    match flow.on_selection(Err(SelectError::NoReachableNode.message())) {
        TransferAction::Reply(Err(r)) => {
            assert_eq!(r.body.error, "FAUCET: Transfer failed");
            assert_eq!(r.body.details.as_deref(), Some("No reachable nodes"));
        }
        other => panic!("unexpected {:?}", other),
    }
    assert_eq!(SelectError::EmptyPool.message(), "No available node sockets");
    let mut flow = TransferFlow::start(LIMIT);
    flow.on_address(Ok(()));
    flow.on_balance(Ok("1".to_string()));
    flow.on_selection(Ok(0));
    match flow.on_submission(Err("rejected".to_string())) {
        TransferAction::Reply(Err(r)) => {
            assert_eq!(r.body.error, "FAUCET: Transfer failed");
            assert_eq!(r.body.details.as_deref(), Some("rejected"));
        }
        other => panic!("unexpected {:?}", other),
    }
}
