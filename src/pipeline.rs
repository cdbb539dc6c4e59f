use vstd::prelude::*;

use crate::auth::{AuthContext, AuthFailure, failure_detail};
use crate::flow::FlowTag;
use crate::outcome::{Envelope, ErrorKind, OperationResult, envelope_body_matches, envelope_status, to_envelope};

verus! {

/// Where a request stands in the pipeline.
#[derive(Clone, Copy, Debug, PartialEq, Eq, Structural)]
pub enum Stage {
    /// Entered, flow recorded, payload not yet decoded.
    Received,
    /// Payload decoded; the strategy is resolving the credentials.
    Authenticating,
    /// Authenticated; the handler is running.
    Handling,
    /// The single response has been produced.
    Responded,
}

/// What the caller of the pipeline must do next.
pub enum Action<T> {
    /// Run the endpoint's strategy on the request.
    ResolveAuth,
    /// Run the handler with this context and the decoded payload.
    InvokeHandler(AuthContext),
    /// Send this envelope; the request is over.
    Respond(Envelope<T>),
}

/// The events of a request, abstracted to what decides the next stage.
#[derive(Clone, Copy, Debug, PartialEq, Eq, Structural)]
pub enum EventKind {
    PayloadDecoded,
    PayloadMalformed,
    Authenticated,
    AuthRejected,
    HandlerFinished,
}

/// The actions of the pipeline, abstracted to their kind.
#[derive(Clone, Copy, Debug, PartialEq, Eq, Structural)]
pub enum ActionKind {
    ResolveAuth,
    InvokeHandler,
    Respond,
}

pub open spec fn action_kind<T>(a: Action<T>) -> ActionKind {
    match a {
        Action::ResolveAuth => ActionKind::ResolveAuth,
        Action::InvokeHandler(_) => ActionKind::InvokeHandler,
        Action::Respond(_) => ActionKind::Respond,
    }
}

/// The transition relation: the stage and action that an event leads to, or
/// `None` where the stage does not accept the event.
pub open spec fn next(s: Stage, e: EventKind) -> Option<(Stage, ActionKind)> {
    match (s, e) {
        (Stage::Received, EventKind::PayloadDecoded) => Some((Stage::Authenticating, ActionKind::ResolveAuth)),
        (Stage::Received, EventKind::PayloadMalformed) => Some((Stage::Responded, ActionKind::Respond)),
        (Stage::Authenticating, EventKind::Authenticated) => Some((Stage::Handling, ActionKind::InvokeHandler)),
        (Stage::Authenticating, EventKind::AuthRejected) => Some((Stage::Responded, ActionKind::Respond)),
        (Stage::Handling, EventKind::HandlerFinished) => Some((Stage::Responded, ActionKind::Respond)),
        _ => None,
    }
}

/// The actions that a sequence of events produces from stage `s`, or `None`
/// if one of them is not accepted where it comes.
pub open spec fn actions(s: Stage, events: Seq<EventKind>) -> Option<Seq<ActionKind>>
    decreases events.len(),
{
    if events.len() == 0 {
        Some(Seq::<ActionKind>::empty())
    } else {
        match next(s, events[0]) {
            None => None,
            Some((s2, a)) => match actions(s2, events.drop_first()) {
                None => None,
                Some(rest) => Some(seq![a] + rest),
            },
        }
    }
}

pub open spec fn payload_event(decoded: Result<(), String>) -> EventKind {
    match decoded {
        Ok(_) => EventKind::PayloadDecoded,
        Err(_) => EventKind::PayloadMalformed,
    }
}

pub open spec fn auth_event(r: Result<AuthContext, AuthFailure>) -> EventKind {
    match r {
        Ok(_) => EventKind::Authenticated,
        Err(_) => EventKind::AuthRejected,
    }
}

/// `a` responds with the envelope of `r`.
pub open spec fn responds_with<T>(a: Action<T>, r: OperationResult<T>) -> bool {
    match a {
        Action::Respond(e) => e.status == envelope_status(r) && envelope_body_matches(r, e.body),
        _ => false,
    }
}

/// One request's passage through the pipeline. The flow tag is fixed when the
/// request enters and is never changed.
pub struct Pipeline {
    flow: FlowTag,
    stage: Stage,
}

impl Pipeline {
    pub closed spec fn spec_flow(&self) -> FlowTag {
        self.flow
    }

    pub closed spec fn spec_stage(&self) -> Stage {
        self.stage
    }

    /// Enters a request under its flow tag.
    pub fn new(flow: FlowTag) -> (p: Pipeline)
        ensures
            p.spec_flow() == flow,
            p.spec_stage() == Stage::Received,
    {
        Pipeline { flow, stage: Stage::Received }
    }

    pub fn flow(&self) -> (r: FlowTag)
        ensures
            r == self.spec_flow(),
    {
        self.flow
    }

    pub fn stage(&self) -> (r: Stage)
        ensures
            r == self.spec_stage(),
    {
        self.stage
    }

    /// Takes the outcome of decoding the payload. A malformed payload ends
    /// the request before any credential is looked at.
    pub fn on_payload<T>(&mut self, decoded: Result<(), String>) -> (a: Action<T>)
        requires
            old(self).spec_stage() == Stage::Received,
        ensures
            final(self).spec_flow() == old(self).spec_flow(),
            next(old(self).spec_stage(), payload_event(decoded)) == Some(
                (final(self).spec_stage(), action_kind(a)),
            ),
            decoded is Err ==> responds_with(
                a,
                OperationResult::<T>::Failure(ErrorKind::MalformedPayload, decoded->Err_0),
            ),
    {
        match decoded {
            Ok(_) => {
                self.stage = Stage::Authenticating;
                Action::ResolveAuth
            },
            Err(detail) => {
                self.stage = Stage::Responded;
                Action::Respond(to_envelope(OperationResult::Failure(ErrorKind::MalformedPayload, detail)))
            },
        }
    }

    /// Takes the strategy's resolution. Only a resolved context reaches the
    /// handler; a failure ends the request.
    pub fn on_auth<T>(&mut self, resolved: Result<AuthContext, AuthFailure>) -> (a: Action<T>)
        requires
            old(self).spec_stage() == Stage::Authenticating,
        ensures
            final(self).spec_flow() == old(self).spec_flow(),
            next(old(self).spec_stage(), auth_event(resolved)) == Some(
                (final(self).spec_stage(), action_kind(a)),
            ),
            resolved is Ok ==> a == Action::<T>::InvokeHandler(resolved->Ok_0),
            resolved is Err ==> match a {
                Action::Respond(e) => e.status == 401 && match e.body {
                    crate::outcome::Body::Error { kind, message } => kind
                        == ErrorKind::AuthenticationFailure && message@ == failure_detail(
                        resolved->Err_0,
                    ),
                    _ => false,
                },
                _ => false,
            },
    {
        match resolved {
            Ok(ctx) => {
                self.stage = Stage::Handling;
                Action::InvokeHandler(ctx)
            },
            Err(f) => {
                self.stage = Stage::Responded;
                let r = OperationResult::Failure(ErrorKind::AuthenticationFailure, f.detail());
                Action::Respond(to_envelope(r))
            },
        }
    }

    /// Takes what the handler returned and passes it, unreinterpreted, to the
    /// envelope.
    pub fn on_handler<T>(&mut self, result: OperationResult<T>) -> (a: Action<T>)
        requires
            old(self).spec_stage() == Stage::Handling,
        ensures
            final(self).spec_flow() == old(self).spec_flow(),
            next(old(self).spec_stage(), EventKind::HandlerFinished) == Some(
                (final(self).spec_stage(), action_kind(a)),
            ),
            responds_with(a, result),
    {
        self.stage = Stage::Responded;
        Action::Respond(to_envelope(result))
    }
}

proof fn lemma_cons_contains<A>(a: A, rest: Seq<A>, x: A)
    ensures
        (seq![a] + rest).contains(x) <==> (a == x || rest.contains(x)),
{
    let s = seq![a] + rest;
    if s.contains(x) {
        let i = choose|i: int| 0 <= i < s.len() && s[i] == x;
        if i > 0 {
            assert(rest[i - 1] == x);
        }
    }
    if a == x {
        assert(s[0] == x);
    }
    if rest.contains(x) {
        let j = choose|j: int| 0 <= j < rest.len() && rest[j] == x;
        assert(s[j + 1] == x);
    }
}

proof fn lemma_first_contains<A>(s: Seq<A>, x: A)
    requires
        s.len() > 0,
    ensures
        s.contains(x) <==> (s[0] == x || s.drop_first().contains(x)),
{
    assert(s == seq![s[0]] + s.drop_first());
    lemma_cons_contains(s[0], s.drop_first(), x);
}

/// Handler execution and successful authentication go together: in every
/// sequence of events that a request accepts, the handler is invoked if and
/// only if the strategy resolved the credentials.
pub proof fn handler_runs_iff_authenticated(events: Seq<EventKind>)
    requires
        actions(Stage::Received, events) is Some,
    ensures
        actions(Stage::Received, events)->Some_0.contains(ActionKind::InvokeHandler)
            <==> events.contains(EventKind::Authenticated),
{
    lemma_handler_iff_auth_from(Stage::Received, events);
}

proof fn lemma_handler_iff_auth_from(s: Stage, events: Seq<EventKind>)
    requires
        actions(s, events) is Some,
    ensures
        s == Stage::Received || s == Stage::Authenticating ==> (actions(
            s,
            events,
        )->Some_0.contains(ActionKind::InvokeHandler) <==> events.contains(
            EventKind::Authenticated,
        )),
        s == Stage::Handling || s == Stage::Responded ==> !actions(
            s,
            events,
        )->Some_0.contains(ActionKind::InvokeHandler) && !events.contains(
            EventKind::Authenticated,
        ),
    decreases events.len(),
{
    if events.len() > 0 {
        let (s2, a) = next(s, events[0])->Some_0;
        let rest = actions(s2, events.drop_first())->Some_0;
        lemma_handler_iff_auth_from(s2, events.drop_first());
        lemma_cons_contains(a, rest, ActionKind::InvokeHandler);
        lemma_first_contains(events, EventKind::Authenticated);
    }
}

/// Every request produces at most one response, and once it has responded it
/// accepts no further event.
pub proof fn responds_at_most_once(events: Seq<EventKind>)
    requires
        actions(Stage::Received, events) is Some,
    ensures
        forall|i: int, j: int|
            0 <= i < j < events.len() ==> !(actions(Stage::Received, events)->Some_0[i]
                == ActionKind::Respond && actions(Stage::Received, events)->Some_0[j]
                == ActionKind::Respond),
{
    lemma_respond_last(Stage::Received, events);
}

proof fn lemma_respond_last(s: Stage, events: Seq<EventKind>)
    requires
        actions(s, events) is Some,
    ensures
        actions(s, events)->Some_0.len() == events.len(),
        s == Stage::Responded ==> events.len() == 0,
        forall|i: int|
            0 <= i < events.len() - 1 ==> actions(s, events)->Some_0[i] != ActionKind::Respond,
    decreases events.len(),
{
    if events.len() > 0 {
        let (s2, a) = next(s, events[0])->Some_0;
        lemma_respond_last(s2, events.drop_first());
        let rest = actions(s2, events.drop_first())->Some_0;
        let all = seq![a] + rest;
        assert forall|i: int| 0 <= i < events.len() - 1 implies all[i] != ActionKind::Respond by {
            if i > 0 {
                assert(all[i] == rest[i - 1]);
            } else {
                assert(a == ActionKind::Respond ==> s2 == Stage::Responded);
            }
        }
    }
}

} // verus!
