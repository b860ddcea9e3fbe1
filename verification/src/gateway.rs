//! The protection gateway: one stateless call across the facility boundary,
//! written as the decisions of that call.
//!
//! A call begins with [`dpapi_wrap`] or [`dpapi_unwrap`], which build the
//! request. The driver then performs each [`Action`] and reports what
//! happened as an [`Event`] to [`GatewayCall::step`], until the action is
//! [`Action::Finish`].

use vstd::prelude::*;
use crate::blob::Blob;

verus! {

/// The flag word that forbids the facility any interactive prompt.
pub const UI_FORBIDDEN: u32 = 1;

/// The facility reported failure. It carries no diagnostic and no data.
#[derive(Clone, Copy, Debug, PartialEq, Eq)]
pub struct ProtectionError;

/// The facility's two entry points.
#[derive(Clone, Copy, Debug, PartialEq, Eq)]
pub enum Operation {
    Protect,
    Unprotect,
}

/// The identity under which the facility derives its key.
#[derive(Clone, Copy, Debug, PartialEq, Eq)]
pub enum Scope {
    User,
}

/// The options of a facility call, limited to those this gateway uses.
#[derive(Clone, Copy, Debug)]
pub struct CallOptions<'a> {
    pub ui_suppressed: bool,
    pub entropy: Option<Blob<'a>>,
    pub scope: Scope,
}

impl<'a> CallOptions<'a> {
    /// The one configuration in use: no prompt, no entropy, user scope.
    pub open spec fn is_headless(&self) -> bool {
        &&& self.ui_suppressed
        &&& self.entropy is None
        &&& self.scope == Scope::User
    }

    /// The flag word that these options stand for.
    pub open spec fn spec_flags(&self) -> u32 {
        if self.ui_suppressed {
            UI_FORBIDDEN
        } else {
            0
        }
    }

    /// The options of every call this gateway makes.
    pub fn headless() -> (options: CallOptions<'a>)
        ensures
            options.is_headless(),
    {
        CallOptions { ui_suppressed: true, entropy: None, scope: Scope::User }
    }

    /// The flag word to hand to the facility.
    #[verifier::when_used_as_spec(spec_flags)]
    pub fn flags(&self) -> (word: u32)
        ensures
            word == self.spec_flags(),
    {
        if self.ui_suppressed {
            UI_FORBIDDEN
        } else {
            0
        }
    }
}

/// Everything the driver hands to the facility in one call. The descriptor
/// slot, the reserved argument and the prompt configuration are absent in
/// every call and so have no field.
#[derive(Clone, Copy, Debug)]
pub struct Request<'a> {
    pub operation: Operation,
    /// The caller's bytes, viewed and not owned.
    pub input: Blob<'a>,
    /// The placeholder the facility fills in.
    pub output: Blob<'a>,
    pub options: CallOptions<'a>,
}

impl<'a> Request<'a> {
    /// The request that the gateway makes for `operation` on `bytes`.
    pub open spec fn is_for(&self, operation: Operation, bytes: Seq<u8>) -> bool {
        &&& self.operation == operation
        &&& self.input.wf()
        &&& self.input@ == bytes
        &&& self.input.spec_len() == bytes.len()
        &&& !self.input.spec_is_null()
        &&& self.output.wf()
        &&& self.output.spec_is_null()
        &&& self.output.spec_len() == 0
        &&& self.options.is_headless()
        &&& self.options.spec_flags() == UI_FORBIDDEN
    }
}

/// What the gateway asks its driver to do next.
#[derive(Debug)]
pub enum Action<'a> {
    /// Call the facility once with this request.
    Invoke(Request<'a>),
    /// View the memory the facility left in the response and report it.
    View,
    /// Free the response memory with the facility's own routine.
    Release,
    /// The call is over; this is its result.
    Finish(Result<Vec<u8>, ProtectionError>),
}

/// What the driver reports after performing an action.
#[derive(Clone, Copy, Debug)]
pub enum Event<'r> {
    /// The facility returned `status`; `allocated` says whether it left a
    /// non-null pointer in the response.
    Returned { status: i32, allocated: bool },
    /// The response memory, viewed.
    Viewed(Blob<'r>),
    /// The response memory has been freed.
    Released,
}

/// Where one gateway call stands.
#[derive(Debug)]
pub enum GatewayCall {
    /// The facility has been asked; its return is awaited.
    Calling,
    /// The facility succeeded and left data; a view of it is awaited.
    Copying,
    /// The data has been copied out; the release is awaited.
    Releasing(Vec<u8>),
    /// Nothing further is awaited.
    Done,
}

/// The model of an [`Action`].
pub ghost enum Ask {
    Invoke { operation: Operation, input: Seq<u8> },
    View,
    Release,
    Finish(Result<Seq<u8>, ProtectionError>),
}

/// The model of an [`Event`].
pub ghost enum Fact {
    Returned { status: i32, allocated: bool },
    Viewed(Seq<u8>),
    Released,
}

/// The model of a [`GatewayCall`].
pub ghost enum Phase {
    Calling,
    Copying,
    Releasing(Seq<u8>),
    Done,
}

/// The model of a gateway result.
pub open spec fn result_view(result: Result<Vec<u8>, ProtectionError>) -> Result<
    Seq<u8>,
    ProtectionError,
> {
    match result {
        Ok(bytes) => Ok(bytes@),
        Err(e) => Err(e),
    }
}

impl<'a> View for Action<'a> {
    type V = Ask;

    open spec fn view(&self) -> Ask {
        match *self {
            Action::Invoke(request) => Ask::Invoke {
                operation: request.operation,
                input: request.input@,
            },
            Action::View => Ask::View,
            Action::Release => Ask::Release,
            Action::Finish(result) => Ask::Finish(result_view(result)),
        }
    }
}

impl<'r> View for Event<'r> {
    type V = Fact;

    open spec fn view(&self) -> Fact {
        match *self {
            Event::Returned { status, allocated } => Fact::Returned { status, allocated },
            Event::Viewed(blob) => Fact::Viewed(blob@),
            Event::Released => Fact::Released,
        }
    }
}

impl View for GatewayCall {
    type V = Phase;

    open spec fn view(&self) -> Phase {
        match *self {
            GatewayCall::Calling => Phase::Calling,
            GatewayCall::Copying => Phase::Copying,
            GatewayCall::Releasing(bytes) => Phase::Releasing(bytes@),
            GatewayCall::Done => Phase::Done,
        }
    }
}

/// Whether the facility's return code means success: any non-zero value.
pub open spec fn succeeded(status: i32) -> bool {
    status != 0
}

/// The gateway's decision: the next phase and the next request to the
/// driver, from the current phase and the driver's report.
///
/// A report that does not answer what the phase awaits ends the call with
/// the opaque failure and no data.
pub open spec fn next(phase: Phase, fact: Fact) -> (Phase, Ask) {
    match (phase, fact) {
        (Phase::Calling, Fact::Returned { status, allocated }) => {
            if !succeeded(status) {
                (Phase::Done, Ask::Finish(Err(ProtectionError)))
            } else if allocated {
                (Phase::Copying, Ask::View)
            } else {
                (Phase::Done, Ask::Finish(Ok(Seq::empty())))
            }
        },
        (Phase::Copying, Fact::Viewed(bytes)) => (Phase::Releasing(bytes), Ask::Release),
        (Phase::Releasing(bytes), Fact::Released) => (Phase::Done, Ask::Finish(Ok(bytes))),
        _ => (Phase::Done, Ask::Finish(Err(ProtectionError))),
    }
}

impl GatewayCall {
    /// Takes the driver's report and decides what comes next.
    pub fn step(self, event: Event) -> (next_step: (GatewayCall, Action<'static>))
        ensures
            (next_step.0@, next_step.1@) == next(self@, event@),
    {
        match (self, event) {
            (GatewayCall::Calling, Event::Returned { status, allocated }) => {
                if status == 0 {
                    (GatewayCall::Done, Action::Finish(Err(ProtectionError)))
                } else if allocated {
                    (GatewayCall::Copying, Action::View)
                } else {
                    (GatewayCall::Done, Action::Finish(Ok(Vec::new())))
                }
            },
            (GatewayCall::Copying, Event::Viewed(blob)) => {
                let bytes = blob.to_vec();
                (GatewayCall::Releasing(bytes), Action::Release)
            },
            (GatewayCall::Releasing(bytes), Event::Released) => {
                (GatewayCall::Done, Action::Finish(Ok(bytes)))
            },
            _ => (GatewayCall::Done, Action::Finish(Err(ProtectionError))),
        }
    }
}

/// The longest input the facility's 32-bit length field can describe.
pub open spec fn fits(bytes: Seq<u8>) -> bool {
    bytes.len() <= u32::MAX
}

/// Whether the facility's length field can describe `buffer`.
pub fn describable(buffer: &[u8]) -> (yes: bool)
    ensures
        yes == fits(buffer@),
{
    buffer.len() <= 0xffff_ffff
}

/// Begins a call of `operation` on `buffer`: the request for that entry
/// point, and the call that awaits its return.
pub fn begin<'a>(operation: Operation, buffer: &'a [u8]) -> (start: (GatewayCall, Action<'a>))
    requires
        fits(buffer@),
    ensures
        start.0@ == Phase::Calling,
        start.1 matches Action::Invoke(request) && request.is_for(operation, buffer@),
{
    let request = Request {
        operation,
        input: Blob::new(buffer),
        output: Blob::null(),
        options: CallOptions::headless(),
    };
    (GatewayCall::Calling, Action::Invoke(request))
}

/// Begins the protection of `buffer`: the request for the facility's
/// protecting entry point, and the call that awaits its return.
pub fn dpapi_wrap<'a>(buffer: &'a [u8]) -> (start: (GatewayCall, Action<'a>))
    requires
        fits(buffer@),
    ensures
        start.0@ == Phase::Calling,
        start.1 matches Action::Invoke(request) && request.is_for(Operation::Protect, buffer@),
{
    begin(Operation::Protect, buffer)
}

/// Begins the recovery of `buffer`: the request for the facility's
/// unprotecting entry point, and the call that awaits its return.
pub fn dpapi_unwrap<'a>(buffer: &'a [u8]) -> (start: (GatewayCall, Action<'a>))
    requires
        fits(buffer@),
    ensures
        start.0@ == Phase::Calling,
        start.1 matches Action::Invoke(request) && request.is_for(Operation::Unprotect, buffer@),
{
    begin(Operation::Unprotect, buffer)
}

} // verus!
