use grass_claim::bundle::{
    bundle_id_of_response, run_confirmation, BundleConfirmation, BundleError, BundleStatusValue,
    GetBundleStatusesResult, JsonRpcRequest, JsonRpcResponseResult, Method, PollStep,
    TransactionConfirmationStatus, DEFAULT_CONFIRM_TIMEOUT_SECS, DEFAULT_POLL_INTERVAL_SECS,
};

fn response(status: Option<TransactionConfirmationStatus>) -> GetBundleStatusesResult {
    GetBundleStatusesResult {
        value: vec![status.map(|confirmation_status| BundleStatusValue {
            bundle_id: String::from("b"),
            confirmation_status,
        })],
    }
}

#[test]
fn request_carries_the_fixed_protocol_fields() {
    let req = JsonRpcRequest::new(Method::SendBundle, [vec![String::from("encoded")]]);
    assert_eq!(req.jsonrpc, "2.0");
    assert_eq!(req.id, 1);
    assert_eq!(req.method, Method::SendBundle);
    assert_eq!(req.params[0], vec![String::from("encoded")]);
}

#[test]
fn statuses_parse_back_from_their_wire_names() {
    assert_eq!(
        TransactionConfirmationStatus::from_wire(&String::from("finalized")),
        Some(TransactionConfirmationStatus::Finalized)
    );
    assert_eq!(
        TransactionConfirmationStatus::from_wire(&String::from("confirmed")),
        Some(TransactionConfirmationStatus::Confirmed)
    );
    assert_eq!(
        TransactionConfirmationStatus::from_wire(&String::from("processed")),
        Some(TransactionConfirmationStatus::Processed)
    );
    assert_eq!(TransactionConfirmationStatus::from_wire(&String::from("dropped")), None);
}

#[test]
fn method_and_status_wire_names() {
    assert_eq!(Method::SendBundle.as_str(), "sendBundle");
    assert_eq!(Method::GetBundleStatuses.as_str(), "getBundleStatuses");
    assert_eq!(TransactionConfirmationStatus::Processed.as_str(), "processed");
    assert_eq!(TransactionConfirmationStatus::Confirmed.as_str(), "confirmed");
    assert_eq!(TransactionConfirmationStatus::Finalized.as_str(), "finalized");
}

#[test]
fn send_response_yields_the_bundle_id() {
    let r = bundle_id_of_response(JsonRpcResponseResult::SendBundleResult(String::from("abc")));
    assert_eq!(r.unwrap(), "abc");
    let wrong = bundle_id_of_response(JsonRpcResponseResult::GetBundleStatuses(
        GetBundleStatusesResult { value: vec![] },
    ));
    assert_eq!(wrong.unwrap_err(), BundleError::UnexpectedResponse);
}

#[test]
fn confirmed_forever_times_out_at_the_poll_budget() {
    // A relay that answers "confirmed" on every poll and never "finalized":
    // the wait must time out after exactly timeout / interval polls.
    let budget = (DEFAULT_CONFIRM_TIMEOUT_SECS / DEFAULT_POLL_INTERVAL_SECS) as usize;
    assert_eq!(budget, 20);
    let responses: Vec<GetBundleStatusesResult> = (0..budget)
        .map(|_| response(Some(TransactionConfirmationStatus::Confirmed)))
        .collect();
    let (verdict, polls) =
        run_confirmation(&responses, DEFAULT_CONFIRM_TIMEOUT_SECS, DEFAULT_POLL_INTERVAL_SECS);
    assert_eq!(verdict, PollStep::TimedOut);
    assert_eq!(polls, 20);
}

#[test]
fn finalized_response_ends_the_wait_early() {
    let mut responses: Vec<GetBundleStatusesResult> = (0..20)
        .map(|_| response(Some(TransactionConfirmationStatus::Confirmed)))
        .collect();
    responses[3] = response(Some(TransactionConfirmationStatus::Finalized));
    let (verdict, polls) = run_confirmation(&responses, 100, 5);
    assert_eq!(verdict, PollStep::Finalized);
    assert_eq!(polls, 3);
}

#[test]
fn missing_statuses_keep_the_wait_going() {
    let responses: Vec<GetBundleStatusesResult> = (0..4).map(|_| response(None)).collect();
    let (verdict, polls) = run_confirmation(&responses, 20, 5);
    assert_eq!(verdict, PollStep::TimedOut);
    assert_eq!(polls, 4);
}

#[test]
fn stepwise_machine_consumes_its_budget() {
    let mut m = BundleConfirmation::new(10, 5);
    assert_eq!(m.max_polls, 2);
    assert!(m.can_poll());
    let first = m.on_poll(&response(Some(TransactionConfirmationStatus::Processed)));
    assert_eq!(first, PollStep::KeepWaiting);
    let second = m.on_poll(&response(Some(TransactionConfirmationStatus::Confirmed)));
    assert_eq!(second, PollStep::TimedOut);
    assert!(!m.can_poll());
}
