use resimulate::codec::{hex8_to_u32, u32_to_hex8};
use resimulate::cost::{ExecutionCost, LimitedCostTracker};
use resimulate::rpc::{
    make_call_readonly_response, read_only_cost_limit, RPCCallReadOnlyRequestHandler,
    ReadOnlyCallOutcome, CallReadOnlyRequestBody,
};

fn cost(wl: u64, wc: u64, rl: u64, rc: u64, rt: u64) -> ExecutionCost {
    ExecutionCost { write_length: wl, write_count: wc, read_length: rl, read_count: rc, runtime: rt }
}

#[test]
fn hex8_renders_and_parses_exactly() {
    assert_eq!(u32_to_hex8(0), "00000000".to_string());
    assert_eq!(u32_to_hex8(1), "00000001".to_string());
    assert_eq!(u32_to_hex8(0xdeadbeef), "deadbeef".to_string());
    assert_eq!(u32_to_hex8(u32::MAX), "ffffffff".to_string());
    assert_eq!(hex8_to_u32("deadbeef"), Some(0xdeadbeef));
    assert_eq!(hex8_to_u32("00000000"), Some(0));
    assert_eq!(hex8_to_u32("ffffffffff"), Some(u32::MAX));
    assert_eq!(hex8_to_u32("deadbee"), None);
    assert_eq!(hex8_to_u32("DEADBEEF"), None);
    assert_eq!(hex8_to_u32(""), None);
}

#[test]
fn cost_arithmetic_is_checked_and_saturating() {
    let a = cost(1, 2, 3, 4, 5);
    let b = cost(10, 20, 30, 40, 50);
    assert_eq!(a.checked_add(&b), Some(cost(11, 22, 33, 44, 55)));
    let big = cost(u64::MAX, 0, 0, 0, 0);
    assert_eq!(big.checked_add(&a), None);
    assert_eq!(big.saturating_add(&a), cost(u64::MAX, 2, 3, 4, 5));
    assert!(cost(11, 0, 0, 0, 0).exceeds(&cost(10, 10, 10, 10, 10)));
    assert!(!cost(10, 10, 10, 10, 10).exceeds(&cost(10, 10, 10, 10, 10)));
}

#[test]
fn tracker_charges_against_the_ceiling() {
    let mut tracker = LimitedCostTracker::new(cost(10, 10, 10, 10, 10));
    assert_eq!(tracker.get_total(), ExecutionCost::zero());
    assert!(tracker.charge(&cost(0, 0, 0, 0, 6)));
    assert!(!tracker.charge(&cost(0, 0, 0, 0, 6)));
    // The failed charge leaves the clamped over-ceiling total behind.
    assert_eq!(tracker.get_total(), cost(0, 0, 0, 0, 12));
    tracker.set_total(ExecutionCost::zero());
    assert_eq!(tracker.get_total(), ExecutionCost::zero());
}

#[test]
fn read_only_limit_disables_writes() {
    let configured = cost(7, 8, 9, 10, 11);
    let effective = read_only_cost_limit(&configured);
    assert_eq!(effective, cost(0, 0, 9, 10, 11));
}

#[test]
fn handler_restart_clears_request_fields() {
    let mut handler = RPCCallReadOnlyRequestHandler::new(4096, cost(1, 1, 1, 1, 1));
    assert_eq!(handler.verb(), "POST");
    assert_eq!(
        handler.metrics_identifier(),
        "/v2/contracts/call-read/:principal/:contract_name/:func_name"
    );
    assert!(handler.body_size_ok(1));
    assert!(handler.body_size_ok(4095));
    assert!(!handler.body_size_ok(0));
    assert!(!handler.body_size_ok(4096));
    handler.contract_identifier = Some("SP1.token".to_string());
    handler.function = Some("get-balance".to_string());
    handler.sender = Some("SP1".to_string());
    handler.arguments = Some(vec!["0x00".to_string()]);
    handler.restart();
    assert!(handler.contract_identifier.is_none());
    assert!(handler.function.is_none());
    assert!(handler.sender.is_none());
    assert!(handler.sponsor.is_none());
    assert!(handler.arguments.is_none());
    assert_eq!(handler.maximum_call_argument_size, 4096);
}

#[test]
fn call_outcomes_render_to_responses() {
    let ok = make_call_readonly_response(&ReadOnlyCallOutcome::Value("0011".to_string()))
        .expect("a value renders to a body");
    assert!(ok.okay);
    assert_eq!(ok.result, Some("0x0011".to_string()));
    assert_eq!(ok.cause, None);

    let wrote = make_call_readonly_response(&ReadOnlyCallOutcome::CostExceeded(
        cost(0, 3, 0, 0, 0),
        "cost exceeded".to_string(),
    ))
    .expect("renders to a body");
    assert!(!wrote.okay);
    assert_eq!(wrote.result, None);
    assert_eq!(wrote.cause, Some("NotReadOnly".to_string()));

    let starved = make_call_readonly_response(&ReadOnlyCallOutcome::CostExceeded(
        cost(0, 0, 0, 0, 999),
        "cost exceeded".to_string(),
    ))
    .expect("renders to a body");
    assert_eq!(starved.cause, Some("cost exceeded".to_string()));

    assert!(make_call_readonly_response(&ReadOnlyCallOutcome::TipNotFound).is_none());

    let other = make_call_readonly_response(&ReadOnlyCallOutcome::Other(
        "NoSuchContract".to_string(),
    ))
    .expect("renders to a body");
    assert!(!other.okay);
    assert_eq!(other.cause, Some("NoSuchContract".to_string()));
}

#[test]
fn request_body_keeps_its_fields() {
    let body = CallReadOnlyRequestBody {
        sender: "SP1".to_string(),
        sponsor: Some("SP2".to_string()),
        arguments: vec!["0x0a".to_string(), "0x0b".to_string()],
    };
    let copy = body.clone();
    assert_eq!(copy.sender, "SP1");
    assert_eq!(copy.sponsor, Some("SP2".to_string()));
    assert_eq!(copy.arguments, vec!["0x0a".to_string(), "0x0b".to_string()]);
}
