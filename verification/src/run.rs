//! What holds of a whole gateway call when the driver reports faithfully:
//! the requests it is sent, in order, and the result it is handed.

use vstd::prelude::*;
use crate::gateway::{next, succeeded, Ask, Fact, Operation, Phase, ProtectionError};

verus! {

/// What the facility did in one call: its return code, whether it left a
/// non-null pointer in the response, and the bytes that pointer leads to.
pub ghost struct Reply {
    pub status: i32,
    pub allocated: bool,
    pub data: Seq<u8>,
}

/// The report of a driver that performed `ask` against a facility that
/// behaved as `reply` says. Nothing is reported after `Finish`.
pub open spec fn answer(ask: Ask, reply: Reply) -> Option<Fact> {
    match ask {
        Ask::Invoke { .. } => Some(
            Fact::Returned { status: reply.status, allocated: reply.allocated },
        ),
        Ask::View => Some(Fact::Viewed(reply.data)),
        Ask::Release => Some(Fact::Released),
        Ask::Finish(_) => None,
    }
}

/// The requests sent to a faithful driver from `ask` on, `ask` included, over
/// at most `limit` further reports.
pub open spec fn asks_from(phase: Phase, ask: Ask, reply: Reply, limit: nat) -> Seq<Ask>
    decreases limit,
{
    match answer(ask, reply) {
        Some(fact) if limit > 0 => {
            let (then_phase, then_ask) = next(phase, fact);
            seq![ask] + asks_from(then_phase, then_ask, reply, (limit - 1) as nat)
        },
        _ => seq![ask],
    }
}

/// The longest a faithful call runs: the return, the view and the release.
pub open spec fn run_bound() -> nat {
    3
}

/// The requests of one whole faithful call of `operation` on `input`.
pub open spec fn run(operation: Operation, input: Seq<u8>, reply: Reply) -> Seq<Ask> {
    asks_from(Phase::Calling, Ask::Invoke { operation, input }, reply, run_bound())
}

/// What a faithful call returns to its caller.
pub open spec fn outcome(reply: Reply) -> Result<Seq<u8>, ProtectionError> {
    if !succeeded(reply.status) {
        Err(ProtectionError)
    } else if reply.allocated {
        Ok(reply.data)
    } else {
        Ok(Seq::empty())
    }
}

/// How often `ask` occurs among `asks`.
pub open spec fn occurrences(asks: Seq<Ask>, ask: Ask) -> nat
    decreases asks.len(),
{
    if asks.len() == 0 {
        0
    } else {
        occurrences(asks.drop_last(), ask) + if asks.last() == ask {
            1nat
        } else {
            0nat
        }
    }
}

/// Appending a request adds one occurrence of it and none of any other.
proof fn lemma_occurrences_push(asks: Seq<Ask>, last: Ask, ask: Ask)
    ensures
        occurrences(asks.push(last), ask) == occurrences(asks, ask) + if last == ask {
            1nat
        } else {
            0nat
        },
{
    assert(asks.push(last).drop_last() =~= asks);
}

/// A faithful call is one of three sequences of requests, fixed by the
/// facility's return code and by whether it left memory behind. Each ends
/// in `Finish` with the call's outcome.
pub proof fn lemma_run_shape(operation: Operation, input: Seq<u8>, reply: Reply)
    ensures
        !succeeded(reply.status) ==> run(operation, input, reply) == seq![
            Ask::Invoke { operation, input },
            Ask::Finish(Err(ProtectionError)),
        ],
        succeeded(reply.status) && !reply.allocated ==> run(operation, input, reply) == seq![
            Ask::Invoke { operation, input },
            Ask::Finish(Ok(Seq::empty())),
        ],
        succeeded(reply.status) && reply.allocated ==> run(operation, input, reply) == seq![
            Ask::Invoke { operation, input },
            Ask::View,
            Ask::Release,
            Ask::Finish(Ok(reply.data)),
        ],
        run(operation, input, reply).last() == Ask::Finish(outcome(reply)),
{
    reveal_with_fuel(asks_from, 5);
    let r = run(operation, input, reply);
    if !succeeded(reply.status) {
        assert(r =~= seq![Ask::Invoke { operation, input }, Ask::Finish(Err(ProtectionError))]);
    } else if !reply.allocated {
        assert(r =~= seq![Ask::Invoke { operation, input }, Ask::Finish(Ok(Seq::empty()))]);
    } else {
        assert(r =~= seq![
            Ask::Invoke { operation, input },
            Ask::View,
            Ask::Release,
            Ask::Finish(Ok(reply.data)),
        ]);
    }
}

/// The response memory is released exactly once in a call whose facility
/// succeeded and left memory behind, after it was viewed and before the
/// call finishes; in every other call it is neither viewed nor released.
pub proof fn lemma_released_exactly_once(operation: Operation, input: Seq<u8>, reply: Reply)
    ensures
        occurrences(run(operation, input, reply), Ask::Release) == (if succeeded(reply.status)
            && reply.allocated {
            1nat
        } else {
            0nat
        }),
        occurrences(run(operation, input, reply), Ask::View) == occurrences(
            run(operation, input, reply),
            Ask::Release,
        ),
        succeeded(reply.status) && reply.allocated ==> {
            &&& run(operation, input, reply)[1] == Ask::View
            &&& run(operation, input, reply)[2] == Ask::Release
            &&& run(operation, input, reply).len() == 4
        },
{
    lemma_run_shape(operation, input, reply);
    let invoke = Ask::Invoke { operation, input };
    let r = run(operation, input, reply);
    let e = Seq::<Ask>::empty();
    if succeeded(reply.status) && reply.allocated {
        let finish = Ask::Finish(Ok(reply.data));
        assert(r =~= e.push(invoke).push(Ask::View).push(Ask::Release).push(finish));
        lemma_occurrences_push(e, invoke, Ask::Release);
        lemma_occurrences_push(e.push(invoke), Ask::View, Ask::Release);
        lemma_occurrences_push(e.push(invoke).push(Ask::View), Ask::Release, Ask::Release);
        lemma_occurrences_push(
            e.push(invoke).push(Ask::View).push(Ask::Release),
            finish,
            Ask::Release,
        );
        lemma_occurrences_push(e, invoke, Ask::View);
        lemma_occurrences_push(e.push(invoke), Ask::View, Ask::View);
        lemma_occurrences_push(e.push(invoke).push(Ask::View), Ask::Release, Ask::View);
        lemma_occurrences_push(
            e.push(invoke).push(Ask::View).push(Ask::Release),
            finish,
            Ask::View,
        );
    } else {
        let finish = Ask::Finish(outcome(reply));
        assert(r =~= e.push(invoke).push(finish));
        lemma_occurrences_push(e, invoke, Ask::Release);
        lemma_occurrences_push(e.push(invoke), finish, Ask::Release);
        lemma_occurrences_push(e, invoke, Ask::View);
        lemma_occurrences_push(e.push(invoke), finish, Ask::View);
    }
}

/// A call whose facility reported failure returns the opaque failure, and
/// nothing of what the facility left behind is looked at.
pub proof fn lemma_failure_carries_no_data(operation: Operation, input: Seq<u8>, reply: Reply)
    requires
        !succeeded(reply.status),
    ensures
        outcome(reply) == Err::<Seq<u8>, ProtectionError>(ProtectionError),
        run(operation, input, reply).last() == Ask::Finish(Err(ProtectionError)),
        occurrences(run(operation, input, reply), Ask::View) == 0,
        occurrences(run(operation, input, reply), Ask::Release) == 0,
{
    lemma_run_shape(operation, input, reply);
    lemma_released_exactly_once(operation, input, reply);
}

/// The facility is handed exactly the caller's bytes, and on success the
/// caller is handed exactly the facility's: so wherever the facility
/// recovers `x` from what it produced for `x`, unprotecting what protecting
/// `x` returned gives `x` again.
pub proof fn lemma_round_trip_preserved(
    facility: spec_fn(Operation, Seq<u8>) -> Reply,
    x: Seq<u8>,
)
    requires
        outcome(facility(Operation::Protect, x)) is Ok,
        outcome(facility(Operation::Unprotect, outcome(facility(Operation::Protect, x))->Ok_0))
            == Ok::<Seq<u8>, ProtectionError>(x),
    ensures
        ({
            let protected = run(Operation::Protect, x, facility(Operation::Protect, x));
            &&& protected[0] == Ask::Invoke { operation: Operation::Protect, input: x }
            &&& protected.last() matches Ask::Finish(Ok(ciphertext)) && {
                let recovered = run(
                    Operation::Unprotect,
                    ciphertext,
                    facility(Operation::Unprotect, ciphertext),
                );
                &&& recovered[0] == Ask::Invoke {
                    operation: Operation::Unprotect,
                    input: ciphertext,
                }
                &&& recovered.last() == Ask::Finish(Ok(x))
            }
        }),
{
    let first = facility(Operation::Protect, x);
    lemma_run_shape(Operation::Protect, x, first);
    let ciphertext = outcome(first)->Ok_0;
    lemma_run_shape(Operation::Unprotect, ciphertext, facility(Operation::Unprotect, ciphertext));
}

} // verus!
