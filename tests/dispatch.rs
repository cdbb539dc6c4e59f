use router::auth::{AuthContext, AuthFailure, AuthFlow, AuthStrategy, MerchantRecord};
use router::flow::FlowTag;
use router::outcome::{to_envelope, Body, Envelope, ErrorKind, OperationResult};
use router::payouts::{
    payouts_accounts, payouts_cancel, payouts_create, payouts_retrieve, payouts_reverse,
    payouts_update, CreateStage, PayoutField, PayoutStatus, PayoutsRequest, PayoutsResponse,
    StageEvent,
};
use router::pipeline::{Action, Pipeline, Stage};

fn merchant(id: &str) -> AuthContext {
    AuthStrategy::ApiKey
        .resolve(
            Some("sk_test".to_string()),
            Some(MerchantRecord { merchant_id: id.to_string(), active: true }),
        )
        .ok()
        .unwrap()
}

fn request(amount: Option<u64>, currency: Option<&str>, destination: Option<&str>) -> PayoutsRequest {
    PayoutsRequest {
        amount,
        currency: currency.map(|c| c.to_string()),
        destination: destination.map(|d| d.to_string()),
    }
}

fn placeholder_body(e: &Envelope<String>) -> &str {
    match &e.body {
        Body::Payload(b) => b.as_str(),
        Body::Error { .. } => panic!("a placeholder is never an error"),
    }
}

fn error_of<T>(e: &Envelope<T>) -> (ErrorKind, String) {
    match &e.body {
        Body::Error { kind, message } => (*kind, message.clone()),
        Body::Payload(_) => panic!("expected an error body"),
    }
}

fn run_create(flow_events: Vec<StageEvent>, req: PayoutsRequest) -> (Vec<CreateStage>, Envelope<PayoutsResponse>) {
    let ctx = merchant("merchant_1");
    let (mut flow, mut result) = payouts_create(&ctx, req);
    for ev in flow_events {
        if result.is_some() {
            break;
        }
        result = flow.advance(ev);
    }
    (flow.trace().clone(), to_envelope(result.expect("the flow ended")))
}

fn success_events() -> Vec<StageEvent> {
    vec![
        StageEvent::Passed,
        StageEvent::Passed,
        StageEvent::ConnectorChosen("adyen".to_string()),
        StageEvent::Stored("payout_1".to_string(), PayoutStatus::Pending),
    ]
}

#[test]
fn stubs_return_fixed_placeholders() {
    let cases: Vec<(Envelope<String>, &str)> = vec![
        (payouts_retrieve(), "retrieve"),
        (payouts_update(), "update"),
        (payouts_reverse(), "reverse"),
        (payouts_cancel(), "cancel"),
        (payouts_accounts(), "accounts"),
    ];
    for (e, text) in cases {
        assert_eq!(e.status, 200);
        assert_eq!(placeholder_body(&e), text);
    }
}

#[test]
fn stubs_are_the_same_on_every_call() {
    let a = payouts_retrieve();
    let b = payouts_retrieve();
    assert_eq!(a.status, b.status);
    assert_eq!(placeholder_body(&a), placeholder_body(&b));
}

#[test]
fn retrieve_answers_with_its_literal() {
    let e = payouts_retrieve();
    assert_eq!(e.status, 200);
    assert_eq!(placeholder_body(&e), "retrieve");
}

#[test]
fn create_with_valid_payload_runs_every_stage_once() {
    let (trace, env) = run_create(success_events(), request(Some(100), Some("USD"), Some("acct_1")));
    assert_eq!(
        trace,
        vec![
            CreateStage::Authorize,
            CreateStage::Verify,
            CreateStage::SelectConnector,
            CreateStage::Persist,
            CreateStage::Responded,
        ]
    );
    assert_eq!(trace.iter().filter(|s| **s == CreateStage::SelectConnector).count(), 1);
    assert_eq!(env.status, 200);
    match env.body {
        Body::Payload(p) => {
            assert_eq!(p.payout_id, "payout_1");
            assert_eq!(p.status, PayoutStatus::Pending);
            assert_eq!(p.merchant_id, "merchant_1");
            assert_eq!(p.amount, 100);
            assert_eq!(p.currency, "USD");
            assert_eq!(p.destination, "acct_1");
            assert_eq!(p.connector, "adyen");
        },
        Body::Error { .. } => panic!("expected a payout"),
    }
}

#[test]
fn create_without_amount_is_rejected_before_connector_selection() {
    let (trace, env) = run_create(success_events(), request(None, Some("USD"), Some("acct_1")));
    assert_eq!(trace, vec![CreateStage::Rejected]);
    assert!(!trace.contains(&CreateStage::SelectConnector));
    assert_eq!(env.status, 400);
    let (kind, message) = error_of(&env);
    assert_eq!(kind, ErrorKind::ValidationError);
    assert!(message.contains("amount"));
    assert_eq!(message, "Missing required param: amount");
}

#[test]
fn create_names_the_first_missing_field() {
    let (_, env) = run_create(vec![], request(Some(5), None, None));
    assert_eq!(error_of(&env).1, "Missing required param: currency");
    let (_, env) = run_create(vec![], request(Some(5), Some("EUR"), None));
    assert_eq!(error_of(&env).1, "Missing required param: destination");
    assert_eq!(request(None, None, None).missing_field(), Some(PayoutField::Amount));
    assert_eq!(request(Some(1), Some("EUR"), Some("a")).missing_field(), None);
    assert_eq!(PayoutField::Destination.name(), "destination");
}

#[test]
fn connector_selection_failure_is_opaque_to_the_client() {
    let events = vec![
        StageEvent::Passed,
        StageEvent::Passed,
        StageEvent::Failed(ErrorKind::ConnectorSelectionFailure, "no connector for USD".to_string()),
    ];
    let (trace, env) = run_create(events, request(Some(100), Some("USD"), Some("acct_1")));
    assert_eq!(
        trace,
        vec![CreateStage::Authorize, CreateStage::Verify, CreateStage::SelectConnector, CreateStage::Rejected]
    );
    assert_eq!(env.status, 500);
    assert_eq!(error_of(&env), (ErrorKind::ConnectorSelectionFailure, "Something went wrong".to_string()));
}

#[test]
fn verify_failure_never_reaches_connector_selection() {
    let events = vec![StageEvent::Passed, StageEvent::Failed(ErrorKind::ValidationError, "limit exceeded".to_string())];
    let (trace, env) = run_create(events, request(Some(100), Some("USD"), Some("acct_1")));
    assert_eq!(trace, vec![CreateStage::Authorize, CreateStage::Verify, CreateStage::Rejected]);
    assert_eq!(env.status, 400);
    assert_eq!(error_of(&env), (ErrorKind::ValidationError, "limit exceeded".to_string()));
}

#[test]
fn unexpected_stage_event_is_an_internal_error() {
    let events = vec![StageEvent::ConnectorChosen("adyen".to_string())];
    let (trace, env) = run_create(events, request(Some(100), Some("USD"), Some("acct_1")));
    assert_eq!(trace, vec![CreateStage::Authorize, CreateStage::Rejected]);
    assert_eq!(env.status, 500);
    assert_eq!(error_of(&env).0, ErrorKind::InternalError);
}

#[test]
fn interleaved_creations_keep_their_own_stage_order() {
    let ctx = merchant("merchant_1");
    let (mut a, _) = payouts_create(&ctx, request(Some(100), Some("USD"), Some("acct_1")));
    let (mut b, _) = payouts_create(&ctx, request(Some(7), Some("EUR"), Some("acct_2")));
    let mut ea = success_events().into_iter();
    let mut eb = success_events().into_iter();
    let mut ra = None;
    let mut rb = None;
    for _ in 0..4 {
        rb = b.advance(eb.next().unwrap());
        ra = a.advance(ea.next().unwrap());
    }
    let expected = vec![
        CreateStage::Authorize,
        CreateStage::Verify,
        CreateStage::SelectConnector,
        CreateStage::Persist,
        CreateStage::Responded,
    ];
    assert_eq!(a.trace(), &expected);
    assert_eq!(b.trace(), &expected);
    match (ra, rb) {
        (Some(OperationResult::Success(pa)), Some(OperationResult::Success(pb))) => {
            assert_eq!((pa.amount, pa.currency.as_str()), (100, "USD"));
            assert_eq!((pb.amount, pb.currency.as_str()), (7, "EUR"));
        },
        _ => panic!("both creations succeed"),
    }
    assert_eq!(a.amount(), 100);
    assert_eq!(b.amount(), 7);
}

#[test]
fn pipeline_invokes_handler_only_after_authentication() {
    let mut p = Pipeline::new(FlowTag::PayoutsCreate);
    assert_eq!(p.stage(), Stage::Received);
    let a: Action<String> = p.on_payload(Ok(()));
    assert!(matches!(a, Action::ResolveAuth));
    let a: Action<String> = p.on_auth(Ok(merchant("merchant_9")));
    match a {
        Action::InvokeHandler(ctx) => {
            assert_eq!(ctx.merchant_id(), "merchant_9");
            assert_eq!(ctx.auth_flow(), AuthFlow::Merchant);
        },
        _ => panic!("the handler runs after a successful resolution"),
    }
    assert_eq!(p.stage(), Stage::Handling);
    let a = p.on_handler(OperationResult::Success("done".to_string()));
    match a {
        Action::Respond(e) => {
            assert_eq!(e.status, 200);
            assert_eq!(placeholder_body(&e), "done");
        },
        _ => panic!("the pipeline responds"),
    }
    assert_eq!(p.stage(), Stage::Responded);
    assert_eq!(p.flow(), FlowTag::PayoutsCreate);
}

#[test]
fn pipeline_authentication_failure_skips_the_handler() {
    let mut p = Pipeline::new(FlowTag::PayoutsCreate);
    let _: Action<String> = p.on_payload(Ok(()));
    let a: Action<String> = p.on_auth(AuthStrategy::ApiKey.resolve(None, None));
    match a {
        Action::Respond(e) => {
            assert_eq!(e.status, 401);
            assert_eq!(error_of(&e), (ErrorKind::AuthenticationFailure, "API key not provided".to_string()));
        },
        _ => panic!("an authentication failure ends the request"),
    }
    assert_eq!(p.stage(), Stage::Responded);
}

#[test]
fn pipeline_malformed_payload_ends_before_authentication() {
    let mut p = Pipeline::new(FlowTag::PayoutsUpdate);
    let a: Action<String> = p.on_payload(Err("expected value at line 1".to_string()));
    match a {
        Action::Respond(e) => {
            assert_eq!(e.status, 400);
            assert_eq!(error_of(&e), (ErrorKind::MalformedPayload, "expected value at line 1".to_string()));
        },
        _ => panic!("a malformed payload ends the request"),
    }
    assert_eq!(p.stage(), Stage::Responded);
    assert_eq!(p.flow(), FlowTag::PayoutsUpdate);
}

#[test]
fn pipeline_passes_handler_errors_through() {
    let mut p = Pipeline::new(FlowTag::PayoutsCreate);
    let _: Action<String> = p.on_payload(Ok(()));
    let _: Action<String> = p.on_auth(Ok(merchant("m")));
    let a: Action<String> = p.on_handler(OperationResult::Failure(ErrorKind::ValidationError, "bad currency".to_string()));
    match a {
        Action::Respond(e) => {
            assert_eq!(e.status, 400);
            assert_eq!(error_of(&e), (ErrorKind::ValidationError, "bad currency".to_string()));
        },
        _ => panic!("the pipeline responds"),
    }
}

#[test]
fn strategies_resolve_credentials() {
    let active = || Some(MerchantRecord { merchant_id: "m1".to_string(), active: true });
    let ok = AuthStrategy::Publishable.resolve(Some("pk_1".to_string()), active()).ok().unwrap();
    assert_eq!(ok.auth_flow(), AuthFlow::Customer);
    assert_eq!(ok.merchant_id(), "m1");
    assert_eq!(AuthStrategy::ApiKey.auth_flow(), AuthFlow::Merchant);
    assert_eq!(AuthStrategy::ApiKey.resolve(None, active()).err(), Some(AuthFailure::MissingCredential));
    assert_eq!(AuthStrategy::ApiKey.resolve(Some(String::new()), active()).err(), Some(AuthFailure::MissingCredential));
    assert_eq!(AuthStrategy::ApiKey.resolve(Some("sk".to_string()), None).err(), Some(AuthFailure::InvalidCredential));
    let inactive = Some(MerchantRecord { merchant_id: "m1".to_string(), active: false });
    assert_eq!(AuthStrategy::ApiKey.resolve(Some("sk".to_string()), inactive).err(), Some(AuthFailure::DeactivatedAccount));
    assert_eq!(AuthFailure::InvalidCredential.detail(), "API key is invalid");
    assert_eq!(AuthFailure::DeactivatedAccount.detail(), "Merchant account is deactivated");
}

#[test]
fn error_kinds_map_to_statuses() {
    assert_eq!(ErrorKind::MalformedPayload.status(), 400);
    assert_eq!(ErrorKind::ValidationError.status(), 400);
    assert_eq!(ErrorKind::AuthenticationFailure.status(), 401);
    assert_eq!(ErrorKind::ConnectorSelectionFailure.status(), 500);
    assert_eq!(ErrorKind::InternalError.status(), 500);
    let e: Envelope<u8> = to_envelope(OperationResult::Failure(ErrorKind::InternalError, "db down".to_string()));
    assert_eq!(e.status, 500);
    assert_eq!(error_of(&e), (ErrorKind::InternalError, "Something went wrong".to_string()));
    let e: Envelope<u8> = to_envelope(OperationResult::Success(3));
    assert_eq!(e.status, 200);
    assert!(matches!(e.body, Body::Payload(3)));
}
