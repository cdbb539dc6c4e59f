use vstd::prelude::*;

use crate::auth::{AuthContext, AuthFlow};
use crate::outcome::{Body, Envelope, ErrorKind, OperationResult};

verus! {

/// The decoded body of a payout creation.
pub struct PayoutsRequest {
    pub amount: Option<u64>,
    pub currency: Option<String>,
    pub destination: Option<String>,
}

/// A mandatory field of a payout creation.
#[derive(Clone, Copy, Debug, PartialEq, Eq, Structural)]
pub enum PayoutField {
    Amount,
    Currency,
    Destination,
}

pub open spec fn field_name(f: PayoutField) -> Seq<char> {
    match f {
        PayoutField::Amount => "amount"@,
        PayoutField::Currency => "currency"@,
        PayoutField::Destination => "destination"@,
    }
}

pub open spec fn missing_detail(f: PayoutField) -> Seq<char> {
    match f {
        PayoutField::Amount => "Missing required param: amount"@,
        PayoutField::Currency => "Missing required param: currency"@,
        PayoutField::Destination => "Missing required param: destination"@,
    }
}

/// The first mandatory field that the request lacks, in the order amount,
/// currency, destination.
pub open spec fn first_missing(r: PayoutsRequest) -> Option<PayoutField> {
    if r.amount is None {
        Some(PayoutField::Amount)
    } else if r.currency is None {
        Some(PayoutField::Currency)
    } else if r.destination is None {
        Some(PayoutField::Destination)
    } else {
        None
    }
}

impl PayoutField {
    pub fn name(&self) -> (r: String)
        ensures
            r@ == field_name(*self),
    {
        match self {
            PayoutField::Amount => "amount".to_owned(),
            PayoutField::Currency => "currency".to_owned(),
            PayoutField::Destination => "destination".to_owned(),
        }
    }

    pub fn missing_detail(&self) -> (r: String)
        ensures
            r@ == missing_detail(*self),
    {
        match self {
            PayoutField::Amount => "Missing required param: amount".to_owned(),
            PayoutField::Currency => "Missing required param: currency".to_owned(),
            PayoutField::Destination => "Missing required param: destination".to_owned(),
        }
    }
}

impl PayoutsRequest {
    pub fn missing_field(&self) -> (r: Option<PayoutField>)
        ensures
            r == first_missing(*self),
    {
        if self.amount.is_none() {
            Some(PayoutField::Amount)
        } else if self.currency.is_none() {
            Some(PayoutField::Currency)
        } else if self.destination.is_none() {
            Some(PayoutField::Destination)
        } else {
            None
        }
    }
}

/// The stages of a payout creation. `Responded` and `Rejected` are terminal.
#[derive(Clone, Copy, Debug, PartialEq, Eq, Structural)]
pub enum CreateStage {
    Authorize,
    Verify,
    SelectConnector,
    Persist,
    Responded,
    Rejected,
}

pub open spec fn is_terminal(s: CreateStage) -> bool {
    s == CreateStage::Responded || s == CreateStage::Rejected
}

/// The state of a payout as the business logic recorded it.
#[derive(Clone, Copy, Debug, PartialEq, Eq, Structural)]
pub enum PayoutStatus {
    Pending,
    Success,
    Failed,
}

/// What the collaborator that ran the current stage reports.
pub enum StageEvent {
    /// Authorize or Verify held.
    Passed,
    /// SelectConnector chose this connector.
    ConnectorChosen(String),
    /// The payout was stored under this identifier, in this state.
    Stored(String, PayoutStatus),
    /// The stage failed.
    Failed(ErrorKind, String),
}

#[derive(Clone, Copy, Debug, PartialEq, Eq, Structural)]
pub enum StageEventKind {
    Passed,
    ConnectorChosen,
    Stored,
    Failed,
}

pub open spec fn event_kind(e: StageEvent) -> StageEventKind {
    match e {
        StageEvent::Passed => StageEventKind::Passed,
        StageEvent::ConnectorChosen(_) => StageEventKind::ConnectorChosen,
        StageEvent::Stored(_, _) => StageEventKind::Stored,
        StageEvent::Failed(_, _) => StageEventKind::Failed,
    }
}

/// The stage that an event leads to. Stages run in their fixed order; a
/// failure, or an event that the stage does not expect, rejects the payout.
pub open spec fn stage_next(s: CreateStage, e: StageEventKind) -> CreateStage {
    if is_terminal(s) {
        s
    } else {
        match (s, e) {
            (CreateStage::Authorize, StageEventKind::Passed) => CreateStage::Verify,
            (CreateStage::Verify, StageEventKind::Passed) => CreateStage::SelectConnector,
            (CreateStage::SelectConnector, StageEventKind::ConnectorChosen) => CreateStage::Persist,
            (CreateStage::Persist, StageEventKind::Stored) => CreateStage::Responded,
            _ => CreateStage::Rejected,
        }
    }
}

/// The stages that a sequence of events makes a creation enter from `s`;
/// it stops at a terminal stage.
pub open spec fn stages_entered(s: CreateStage, events: Seq<StageEventKind>) -> Seq<CreateStage>
    decreases events.len(),
{
    if events.len() == 0 || is_terminal(s) {
        Seq::<CreateStage>::empty()
    } else {
        let t = stage_next(s, events[0]);
        seq![t] + stages_entered(t, events.drop_first())
    }
}

/// The detail of a failure raised for an event that the stage did not expect.
pub open spec fn unexpected_detail() -> Seq<char> {
    "unexpected stage event"@
}

/// The structured representation of a created payout.
pub struct PayoutsResponse {
    pub payout_id: String,
    pub merchant_id: String,
    pub amount: u64,
    pub currency: String,
    pub destination: String,
    pub connector: String,
    pub status: PayoutStatus,
}

pub struct CreateFlowView {
    pub merchant_id: Seq<char>,
    pub auth_flow: AuthFlow,
    pub amount: u64,
    pub currency: Seq<char>,
    pub destination: Seq<char>,
    pub connector: Seq<char>,
    pub stage: CreateStage,
    pub trace: Seq<CreateStage>,
}

/// One payout creation: its validated request, the stage it has reached and
/// the stages it has entered, in order.
pub struct CreateFlow {
    merchant_id: String,
    auth_flow: AuthFlow,
    amount: u64,
    currency: String,
    destination: String,
    connector: String,
    stage: CreateStage,
    trace: Vec<CreateStage>,
}

impl View for CreateFlow {
    type V = CreateFlowView;

    closed spec fn view(&self) -> CreateFlowView {
        CreateFlowView {
            merchant_id: self.merchant_id@,
            auth_flow: self.auth_flow,
            amount: self.amount,
            currency: self.currency@,
            destination: self.destination@,
            connector: self.connector@,
            stage: self.stage,
            trace: self.trace@,
        }
    }
}

/// `r` is the response that a flow in view `v` gives once stored under `id`
/// in state `status`.
pub open spec fn is_response(r: PayoutsResponse, v: CreateFlowView, id: Seq<char>, status: PayoutStatus) -> bool {
    &&& r.payout_id@ == id
    &&& r.merchant_id@ == v.merchant_id
    &&& r.amount == v.amount
    &&& r.currency@ == v.currency
    &&& r.destination@ == v.destination
    &&& r.connector@ == v.connector
    &&& r.status == status
}

/// `r` is the failure with this kind and detail.
pub open spec fn is_failure(r: OperationResult<PayoutsResponse>, kind: ErrorKind, detail: Seq<char>) -> bool {
    match r {
        OperationResult::Failure(k, d) => k == kind && d@ == detail,
        _ => false,
    }
}

impl CreateFlow {
    pub fn stage(&self) -> (r: CreateStage)
        ensures
            r == self@.stage,
    {
        self.stage
    }

    /// The stages entered so far, in order.
    pub fn trace(&self) -> (r: &Vec<CreateStage>)
        ensures
            r@ == self@.trace,
    {
        &self.trace
    }

    pub fn amount(&self) -> (r: u64)
        ensures
            r == self@.amount,
    {
        self.amount
    }

    /// Takes what the current stage's collaborator reported and moves to the
    /// next stage. On a terminal stage it returns the request's one result.
    pub fn advance(&mut self, event: StageEvent) -> (r: Option<OperationResult<PayoutsResponse>>)
        requires
            !is_terminal(old(self)@.stage),
        ensures
            final(self)@.stage == stage_next(old(self)@.stage, event_kind(event)),
            final(self)@.trace == old(self)@.trace.push(final(self)@.stage),
            final(self)@.merchant_id == old(self)@.merchant_id,
            final(self)@.auth_flow == old(self)@.auth_flow,
            final(self)@.amount == old(self)@.amount,
            final(self)@.currency == old(self)@.currency,
            final(self)@.destination == old(self)@.destination,
            r is Some <==> is_terminal(final(self)@.stage),
            old(self)@.stage == CreateStage::SelectConnector && event is ConnectorChosen
                ==> final(self)@.connector == event->ConnectorChosen_0@,
            !(old(self)@.stage == CreateStage::SelectConnector && event is ConnectorChosen)
                ==> final(self)@.connector == old(self)@.connector,
            event is Failed ==> is_failure(r->Some_0, event->Failed_0, event->Failed_1@),
            final(self)@.stage == CreateStage::Rejected && !(event is Failed) ==> is_failure(
                r->Some_0,
                ErrorKind::InternalError,
                unexpected_detail(),
            ),
            final(self)@.stage == CreateStage::Responded ==> r->Some_0 is Success && is_response(
                r->Some_0->Success_0,
                final(self)@,
                event->Stored_0@,
                event->Stored_1,
            ),
    {
        let (next, r) = match (self.stage, event) {
            (_, StageEvent::Failed(kind, detail)) => (
                CreateStage::Rejected,
                Some(OperationResult::Failure(kind, detail)),
            ),
            (CreateStage::Authorize, StageEvent::Passed) => (CreateStage::Verify, None),
            (CreateStage::Verify, StageEvent::Passed) => (CreateStage::SelectConnector, None),
            (CreateStage::SelectConnector, StageEvent::ConnectorChosen(c)) => {
                self.connector = c;
                (CreateStage::Persist, None)
            },
            (CreateStage::Persist, StageEvent::Stored(id, status)) => {
                let resp = PayoutsResponse {
                    payout_id: id,
                    merchant_id: self.merchant_id.clone(),
                    amount: self.amount,
                    currency: self.currency.clone(),
                    destination: self.destination.clone(),
                    connector: self.connector.clone(),
                    status,
                };
                (CreateStage::Responded, Some(OperationResult::Success(resp)))
            },
            _ => (
                CreateStage::Rejected,
                Some(OperationResult::Failure(ErrorKind::InternalError, "unexpected stage event".to_owned())),
            ),
        };
        self.stage = next;
        self.trace.push(next);
        r
    }
}

/// The handler of the creation variant: it checks the mandatory fields and,
/// where all are present, starts the flow at Authorize under the caller's
/// identity. A missing field rejects the request at once, with a validation
/// error that names the field.
pub fn payouts_create(auth: &AuthContext, req: PayoutsRequest) -> (res: (
    CreateFlow,
    Option<OperationResult<PayoutsResponse>>,
))
    ensures
        res.0@.merchant_id == auth@.merchant_id,
        res.0@.auth_flow == auth@.auth_flow,
        first_missing(req) matches Some(f) ==> {
            &&& res.0@.stage == CreateStage::Rejected
            &&& res.0@.trace == seq![CreateStage::Rejected]
            &&& res.1 matches Some(r) && is_failure(r, ErrorKind::ValidationError, missing_detail(f))
        },
        first_missing(req) is None ==> {
            &&& res.0@.stage == CreateStage::Authorize
            &&& res.0@.trace == seq![CreateStage::Authorize]
            &&& res.1 is None
            &&& res.0@.amount == req.amount->Some_0
            &&& res.0@.currency == req.currency->Some_0@
            &&& res.0@.destination == req.destination->Some_0@
            &&& res.0@.connector.len() == 0
        },
{
    let missing = req.missing_field();
    let merchant_id = auth.merchant_id().clone();
    let auth_flow = auth.auth_flow();
    match (missing, req.amount, req.currency, req.destination) {
        (None, Some(amount), Some(currency), Some(destination)) => {
            let mut trace: Vec<CreateStage> = Vec::new();
            trace.push(CreateStage::Authorize);
            let flow = CreateFlow {
                merchant_id,
                auth_flow,
                amount,
                currency,
                destination,
                connector: String::new(),
                stage: CreateStage::Authorize,
                trace,
            };
            (flow, None)
        },
        _ => {
            let field = match missing {
                Some(f) => f,
                // `missing` is `Some` whenever a field is absent.
                None => PayoutField::Amount,
            };
            let mut trace: Vec<CreateStage> = Vec::new();
            trace.push(CreateStage::Rejected);
            let flow = CreateFlow {
                merchant_id,
                auth_flow,
                amount: 0,
                currency: String::new(),
                destination: String::new(),
                connector: String::new(),
                stage: CreateStage::Rejected,
                trace,
            };
            (flow, Some(OperationResult::Failure(ErrorKind::ValidationError, field.missing_detail())))
        },
    }
}

/// The stages that follow `s` on a creation that succeeds.
pub open spec fn stages_after(s: CreateStage) -> Seq<CreateStage> {
    match s {
        CreateStage::Authorize => seq![
            CreateStage::Verify,
            CreateStage::SelectConnector,
            CreateStage::Persist,
            CreateStage::Responded,
        ],
        CreateStage::Verify => seq![CreateStage::SelectConnector, CreateStage::Persist, CreateStage::Responded],
        CreateStage::SelectConnector => seq![CreateStage::Persist, CreateStage::Responded],
        CreateStage::Persist => seq![CreateStage::Responded],
        _ => Seq::<CreateStage>::empty(),
    }
}

proof fn lemma_success_path(s: CreateStage, events: Seq<StageEventKind>)
    requires
        !is_terminal(s),
        stages_entered(s, events).len() > 0,
        stages_entered(s, events).last() == CreateStage::Responded,
    ensures
        stages_entered(s, events) == stages_after(s),
    decreases events.len(),
{
    let t = stage_next(s, events[0]);
    let rest = stages_entered(t, events.drop_first());
    assert(stages_entered(s, events) == seq![t] + rest);
    if is_terminal(t) {
        assert(rest.len() == 0);
        assert(stages_entered(s, events) =~= seq![t]);
        assert(stages_after(s) =~= seq![t]);
    } else {
        if rest.len() == 0 {
            assert((seq![t] + rest).last() == t);
        } else {
            assert((seq![t] + rest).last() == rest.last());
            lemma_success_path(t, events.drop_first());
            assert(seq![t] + stages_after(t) =~= stages_after(s));
        }
    }
}

/// A creation that ends in a response has gone through Authorize, Verify,
/// SelectConnector and Persist, each exactly once and in that order, whatever
/// events it was given.
pub proof fn completed_creation_runs_each_stage_once(events: Seq<StageEventKind>)
    requires
        stages_entered(CreateStage::Authorize, events).len() > 0,
        stages_entered(CreateStage::Authorize, events).last() == CreateStage::Responded,
    ensures
        seq![CreateStage::Authorize] + stages_entered(CreateStage::Authorize, events) == seq![
            CreateStage::Authorize,
            CreateStage::Verify,
            CreateStage::SelectConnector,
            CreateStage::Persist,
            CreateStage::Responded,
        ],
{
    lemma_success_path(CreateStage::Authorize, events);
    assert(seq![CreateStage::Authorize] + stages_after(CreateStage::Authorize) =~= seq![
        CreateStage::Authorize,
        CreateStage::Verify,
        CreateStage::SelectConnector,
        CreateStage::Persist,
        CreateStage::Responded,
    ]);
}

/// A rejected creation enters no further stage, whatever events follow; in
/// particular a request rejected for a missing field never reaches connector
/// selection.
pub proof fn rejected_creation_stays_rejected(events: Seq<StageEventKind>)
    ensures
        stages_entered(CreateStage::Rejected, events) == Seq::<CreateStage>::empty(),
{
}

/// Connector selection is entered only from a Verify stage that passed.
pub proof fn connector_selection_follows_verify(s: CreateStage, e: StageEventKind)
    ensures
        stage_next(s, e) == CreateStage::SelectConnector <==> (s == CreateStage::Verify && e
            == StageEventKind::Passed),
{
}

fn http_response(body: &str) -> (e: Envelope<String>)
    ensures
        is_placeholder(e, body@),
{
    Envelope { status: 200, body: Body::Payload(body.to_owned()) }
}

/// `e` is the fixed acknowledgement `text`: status 200 with the literal as body.
pub open spec fn is_placeholder(e: Envelope<String>, text: Seq<char>) -> bool {
    e.status == 200 && (e.body matches Body::Payload(b) && b@ == text)
}

/// Retrieving a payout: not yet defined; acknowledges with a fixed body.
pub fn payouts_retrieve() -> (e: Envelope<String>)
    ensures
        is_placeholder(e, "retrieve"@),
{
    http_response("retrieve")
}

/// Updating a payout: not yet defined; acknowledges with a fixed body.
pub fn payouts_update() -> (e: Envelope<String>)
    ensures
        is_placeholder(e, "update"@),
{
    http_response("update")
}

/// Reversing a payout: not yet defined; acknowledges with a fixed body.
pub fn payouts_reverse() -> (e: Envelope<String>)
    ensures
        is_placeholder(e, "reverse"@),
{
    http_response("reverse")
}

/// Cancelling a payout: not yet defined; acknowledges with a fixed body.
pub fn payouts_cancel() -> (e: Envelope<String>)
    ensures
        is_placeholder(e, "cancel"@),
{
    http_response("cancel")
}

/// Listing payout accounts: not yet defined; acknowledges with a fixed body.
pub fn payouts_accounts() -> (e: Envelope<String>)
    ensures
        is_placeholder(e, "accounts"@),
{
    http_response("accounts")
}

} // verus!
