//! The callable-function bridge: `wrap` and `unwrap` for a managed-runtime
//! host, each answering with a binary or with a named failure marker.

use vstd::prelude::*;
use crate::gateway::{
    describable, dpapi_unwrap, dpapi_wrap, fits, next, Action, Ask, Event, GatewayCall,
    Operation, Phase, ProtectionError,
};
use crate::run::{answer, lemma_run_shape, outcome, run, Reply};

verus! {

/// The marker a host sees in place of a binary when a call failed.
#[derive(Clone, Copy, Debug, PartialEq, Eq)]
pub enum FailureMarker {
    WrapFailed,
    UnwrapFailed,
}

impl FailureMarker {
    /// The marker's name as the host spells it.
    pub open spec fn spec_name(&self) -> Seq<char> {
        match *self {
            FailureMarker::WrapFailed => "wrap_failed"@,
            FailureMarker::UnwrapFailed => "unwrap_failed"@,
        }
    }

    /// The marker's name as the host spells it.
    pub fn name(&self) -> (text: &'static str)
        ensures
            text@ == self.spec_name(),
    {
        match *self {
            FailureMarker::WrapFailed => "wrap_failed",
            FailureMarker::UnwrapFailed => "unwrap_failed",
        }
    }

    /// The marker that stands for a failure of `operation`.
    pub open spec fn spec_of(operation: Operation) -> FailureMarker {
        match operation {
            Operation::Protect => FailureMarker::WrapFailed,
            Operation::Unprotect => FailureMarker::UnwrapFailed,
        }
    }
}

/// What the bridge hands back to the host.
#[derive(Debug, PartialEq, Eq)]
pub enum BridgeReply {
    Binary(Vec<u8>),
    Failure(FailureMarker),
}

/// What the bridge asks its driver to do next.
#[derive(Debug)]
pub enum BridgeAction<'a> {
    /// Perform this gateway action and report back.
    Gateway(Action<'a>),
    /// Hand this to the host; the call is over.
    Reply(BridgeReply),
}

/// One bridge call: a gateway call, and the marker that names its failure.
#[derive(Debug)]
pub struct BridgeCall {
    marker: FailureMarker,
    call: GatewayCall,
}

/// The model of a [`BridgeReply`].
pub ghost enum Answer {
    Binary(Seq<u8>),
    Failure(FailureMarker),
}

/// The model of a [`BridgeAction`].
pub ghost enum BridgeAsk {
    Gateway(Ask),
    Reply(Answer),
}

impl View for BridgeReply {
    type V = Answer;

    open spec fn view(&self) -> Answer {
        match *self {
            BridgeReply::Binary(bytes) => Answer::Binary(bytes@),
            BridgeReply::Failure(marker) => Answer::Failure(marker),
        }
    }
}

impl<'a> View for BridgeAction<'a> {
    type V = BridgeAsk;

    open spec fn view(&self) -> BridgeAsk {
        match *self {
            BridgeAction::Gateway(action) => BridgeAsk::Gateway(action@),
            BridgeAction::Reply(reply) => BridgeAsk::Reply(reply@),
        }
    }
}

impl View for BridgeCall {
    type V = (FailureMarker, Phase);

    closed spec fn view(&self) -> (FailureMarker, Phase) {
        (self.marker, self.call@)
    }
}

/// How the bridge passes a gateway request on: a finished call becomes the
/// host's answer, its failure the marker; any other request is forwarded.
pub open spec fn relay(marker: FailureMarker, ask: Ask) -> BridgeAsk {
    match ask {
        Ask::Finish(Ok(bytes)) => BridgeAsk::Reply(Answer::Binary(bytes)),
        Ask::Finish(Err(_)) => BridgeAsk::Reply(Answer::Failure(marker)),
        _ => BridgeAsk::Gateway(ask),
    }
}

/// The start of a bridge call of `operation` on `input`: the gateway's
/// request, or at once the marker where the facility's length field cannot
/// describe the input.
pub open spec fn bridge_start(operation: Operation, input: Seq<u8>) -> (
    (FailureMarker, Phase),
    BridgeAsk,
) {
    let marker = FailureMarker::spec_of(operation);
    if fits(input) {
        ((marker, Phase::Calling), BridgeAsk::Gateway(Ask::Invoke { operation, input }))
    } else {
        ((marker, Phase::Done), BridgeAsk::Reply(Answer::Failure(marker)))
    }
}

impl BridgeCall {
    /// Takes the driver's report and decides what comes next.
    pub fn step(self, event: Event) -> (next_step: (BridgeCall, BridgeAction<'static>))
        ensures
            next_step.0@ == (self@.0, next(self@.1, event@).0),
            next_step.1@ == relay(self@.0, next(self@.1, event@).1),
    {
        let marker = self.marker;
        let (call, action) = self.call.step(event);
        let passed = match action {
            Action::Finish(Ok(bytes)) => BridgeAction::Reply(BridgeReply::Binary(bytes)),
            Action::Finish(Err(_)) => BridgeAction::Reply(BridgeReply::Failure(marker)),
            other => BridgeAction::Gateway(other),
        };
        (BridgeCall { marker, call }, passed)
    }
}

/// Begins protecting `input` for the host.
pub fn wrap<'a>(input: &'a [u8]) -> (start: (BridgeCall, BridgeAction<'a>))
    ensures
        (start.0@, start.1@) == bridge_start(Operation::Protect, input@),
{
    let marker = FailureMarker::WrapFailed;
    if describable(input) {
        let (call, action) = dpapi_wrap(input);
        (BridgeCall { marker, call }, BridgeAction::Gateway(action))
    } else {
        (
            BridgeCall { marker, call: GatewayCall::Done },
            BridgeAction::Reply(BridgeReply::Failure(marker)),
        )
    }
}

/// Begins recovering `input` for the host.
pub fn unwrap<'a>(input: &'a [u8]) -> (start: (BridgeCall, BridgeAction<'a>))
    ensures
        (start.0@, start.1@) == bridge_start(Operation::Unprotect, input@),
{
    let marker = FailureMarker::UnwrapFailed;
    if describable(input) {
        let (call, action) = dpapi_unwrap(input);
        (BridgeCall { marker, call }, BridgeAction::Gateway(action))
    } else {
        (
            BridgeCall { marker, call: GatewayCall::Done },
            BridgeAction::Reply(BridgeReply::Failure(marker)),
        )
    }
}

/// The requests sent to a faithful driver from `ask` on, `ask` included,
/// over at most `limit` further reports.
pub open spec fn bridge_asks_from(
    call: (FailureMarker, Phase),
    ask: BridgeAsk,
    reply: Reply,
    limit: nat,
) -> Seq<BridgeAsk>
    decreases limit,
{
    match ask {
        BridgeAsk::Gateway(inner) if limit > 0 && answer(inner, reply) is Some => {
            let fact = answer(inner, reply)->Some_0;
            let then_call = (call.0, next(call.1, fact).0);
            let then_ask = relay(call.0, next(call.1, fact).1);
            seq![ask] + bridge_asks_from(then_call, then_ask, reply, (limit - 1) as nat)
        },
        _ => seq![ask],
    }
}

/// The requests of one whole faithful bridge call of `operation` on
/// `input`.
pub open spec fn bridge_run(operation: Operation, input: Seq<u8>, reply: Reply) -> Seq<BridgeAsk> {
    let (call, ask) = bridge_start(operation, input);
    bridge_asks_from(call, ask, reply, 3)
}

/// What the host is handed: the bytes the gateway returned, or the marker
/// of the operation where the call failed or could not be made.
pub open spec fn bridge_answer(operation: Operation, input: Seq<u8>, reply: Reply) -> Answer {
    if !fits(input) {
        Answer::Failure(FailureMarker::spec_of(operation))
    } else {
        match outcome(reply) {
            Ok(bytes) => Answer::Binary(bytes),
            Err(_) => Answer::Failure(FailureMarker::spec_of(operation)),
        }
    }
}

/// A bridge call asks for what the gateway call asks for, request by
/// request, and ends by handing the host its answer: a binary exactly when
/// the call could be made and the facility succeeded, the marker otherwise.
pub proof fn lemma_bridge_run(operation: Operation, input: Seq<u8>, reply: Reply)
    ensures
        fits(input) ==> bridge_run(operation, input, reply) == run(
            operation,
            input,
            reply,
        ).map_values(|ask: Ask| relay(FailureMarker::spec_of(operation), ask)),
        !fits(input) ==> bridge_run(operation, input, reply) == seq![
            BridgeAsk::Reply(Answer::Failure(FailureMarker::spec_of(operation))),
        ],
        bridge_run(operation, input, reply).last() == BridgeAsk::Reply(
            bridge_answer(operation, input, reply),
        ),
{
    reveal_with_fuel(bridge_asks_from, 5);
    lemma_run_shape(operation, input, reply);
    let marker = FailureMarker::spec_of(operation);
    if fits(input) {
        let relayed = run(operation, input, reply).map_values(|ask: Ask| relay(marker, ask));
        assert(bridge_run(operation, input, reply) =~= relayed);
    }
}

/// Where the facility reports failure the host is handed the marker: no
/// binary, whatever the facility left behind.
pub proof fn lemma_failure_is_marker(operation: Operation, input: Seq<u8>, reply: Reply)
    requires
        outcome(reply) == Err::<Seq<u8>, ProtectionError>(ProtectionError),
    ensures
        bridge_run(operation, input, reply).last() == BridgeAsk::Reply(
            Answer::Failure(FailureMarker::spec_of(operation)),
        ),
{
    lemma_bridge_run(operation, input, reply);
}

} // verus!
