use dpapi::blob::Blob;
use dpapi::gateway::{
    begin, describable, dpapi_unwrap, dpapi_wrap, Action, CallOptions, Event, GatewayCall,
    Operation, ProtectionError, Scope, UI_FORBIDDEN,
};

/// A stand-in facility: protecting prefixes the scope byte and a mark and
/// masks each byte; unprotecting undoes that and fails on anything else.
fn facility(scope: u8, operation: Operation, input: &[u8]) -> (i32, Option<Vec<u8>>) {
    match operation {
        Operation::Protect => {
            let mut out = vec![scope, 0xD0];
            for b in input {
                out.push(*b ^ 0x5A);
            }
            (1, Some(out))
        }
        Operation::Unprotect => {
            if input.len() < 2 || input[0] != scope || input[1] != 0xD0 {
                return (0, None);
            }
            (1, Some(input[2..].iter().map(|b| *b ^ 0x5A).collect()))
        }
    }
}

/// Performs each action against the stand-in facility, counting what is
/// allocated and what is released.
fn drive(
    scope: u8,
    start: (GatewayCall, Action),
    live: &mut i64,
    trace: &mut Vec<&'static str>,
) -> Result<Vec<u8>, ProtectionError> {
    let (mut call, mut action) = start;
    let mut memory: Option<Vec<u8>> = None;
    loop {
        let event = match action {
            Action::Invoke(request) => {
                trace.push("invoke");
                assert_eq!(request.options.flags(), 1);
                assert!(request.options.entropy.is_none());
                assert!(request.output.is_null());
                let (status, out) = facility(scope, request.operation, request.input.slice());
                if out.is_some() {
                    *live += 1;
                }
                memory = out;
                Event::Returned { status, allocated: memory.is_some() }
            }
            Action::View => {
                trace.push("view");
                match &memory {
                    Some(bytes) => Event::Viewed(Blob::new(bytes)),
                    None => panic!("asked to view memory that was never allocated"),
                }
            }
            Action::Release => {
                trace.push("release");
                assert!(memory.is_some());
                memory = None;
                *live -= 1;
                Event::Released
            }
            Action::Finish(result) => {
                trace.push("finish");
                return result;
            }
        };
        let next = call.step(event);
        call = next.0;
        action = next.1;
    }
}

fn protect(scope: u8, input: &[u8]) -> Result<Vec<u8>, ProtectionError> {
    drive(scope, dpapi_wrap(input), &mut 0, &mut Vec::new())
}

fn unprotect(scope: u8, input: &[u8]) -> Result<Vec<u8>, ProtectionError> {
    drive(scope, dpapi_unwrap(input), &mut 0, &mut Vec::new())
}

#[test]
fn wrap_asks_for_the_protecting_entry_point() {
    let input = [0x41u8, 0x42, 0x43];
    let (call, action) = dpapi_wrap(&input);
    assert!(matches!(call, GatewayCall::Calling));
    match action {
        Action::Invoke(request) => {
            assert_eq!(request.operation, Operation::Protect);
            assert_eq!(request.input.slice(), &input[..]);
            assert_eq!(request.input.len(), 3);
            assert!(!request.input.is_null());
            assert!(request.output.is_null());
            assert_eq!(request.output.len(), 0);
            assert!(request.options.ui_suppressed);
            assert!(request.options.entropy.is_none());
            assert_eq!(request.options.scope, Scope::User);
            assert_eq!(request.options.flags(), UI_FORBIDDEN);
        }
        other => panic!("unexpected action {:?}", other),
    }
}

#[test]
fn unwrap_asks_for_the_unprotecting_entry_point() {
    let input = [9u8, 8, 7, 6];
    let (call, action) = dpapi_unwrap(&input);
    assert!(matches!(call, GatewayCall::Calling));
    match action {
        Action::Invoke(request) => {
            assert_eq!(request.operation, Operation::Unprotect);
            assert_eq!(request.input.slice(), &input[..]);
            assert_eq!(request.input.len(), 4);
            assert_eq!(request.options.flags(), 1);
        }
        other => panic!("unexpected action {:?}", other),
    }
}

#[test]
fn begin_dispatches_on_the_operation() {
    let input = [1u8];
    for operation in [Operation::Protect, Operation::Unprotect] {
        match begin(operation, &input).1 {
            Action::Invoke(request) => assert_eq!(request.operation, operation),
            other => panic!("unexpected action {:?}", other),
        }
    }
}

#[test]
fn headless_options_forbid_the_prompt() {
    let options = CallOptions::headless();
    assert!(options.ui_suppressed);
    assert!(options.entropy.is_none());
    assert_eq!(options.scope, Scope::User);
    assert_eq!(options.flags(), 1);
    let prompting = CallOptions { ui_suppressed: false, entropy: None, scope: Scope::User };
    assert_eq!(prompting.flags(), 0);
}

#[test]
fn short_inputs_are_describable() {
    assert!(describable(&[]));
    assert!(describable(&[0u8; 1024]));
}

#[test]
fn failure_status_finishes_without_view_or_release() {
    let (call, action) = GatewayCall::Calling.step(Event::Returned { status: 0, allocated: false });
    assert!(matches!(call, GatewayCall::Done));
    assert!(matches!(action, Action::Finish(Err(ProtectionError))));
    let (call, action) = GatewayCall::Calling.step(Event::Returned { status: 0, allocated: true });
    assert!(matches!(call, GatewayCall::Done));
    assert!(matches!(action, Action::Finish(Err(ProtectionError))));
}

#[test]
fn any_nonzero_status_is_success() {
    for status in [1, 2, -1, i32::MAX, i32::MIN] {
        let (call, action) = GatewayCall::Calling.step(Event::Returned { status, allocated: true });
        assert!(matches!(call, GatewayCall::Copying));
        assert!(matches!(action, Action::View));
    }
}

#[test]
fn success_without_memory_gives_empty_bytes() {
    let (call, action) = GatewayCall::Calling.step(Event::Returned { status: 1, allocated: false });
    assert!(matches!(call, GatewayCall::Done));
    match action {
        Action::Finish(Ok(bytes)) => assert!(bytes.is_empty()),
        other => panic!("unexpected action {:?}", other),
    }
}

#[test]
fn viewed_bytes_are_copied_then_released_then_returned() {
    let memory = vec![10u8, 20, 30];
    let (call, action) = GatewayCall::Copying.step(Event::Viewed(Blob::new(&memory)));
    assert!(matches!(action, Action::Release));
    match &call {
        GatewayCall::Releasing(bytes) => assert_eq!(bytes, &vec![10u8, 20, 30]),
        other => panic!("unexpected call {:?}", other),
    }
    drop(memory);
    let (call, action) = call.step(Event::Released);
    assert!(matches!(call, GatewayCall::Done));
    match action {
        Action::Finish(result) => assert_eq!(result, Ok(vec![10u8, 20, 30])),
        other => panic!("unexpected action {:?}", other),
    }
}

#[test]
fn report_out_of_turn_ends_the_call_in_failure() {
    let memory = vec![1u8];
    let cases = vec![
        (GatewayCall::Calling, Event::Released),
        (GatewayCall::Calling, Event::Viewed(Blob::new(&memory))),
        (GatewayCall::Copying, Event::Released),
        (GatewayCall::Copying, Event::Returned { status: 1, allocated: true }),
        (GatewayCall::Releasing(vec![5]), Event::Viewed(Blob::new(&memory))),
        (GatewayCall::Releasing(vec![5]), Event::Returned { status: 1, allocated: true }),
        (GatewayCall::Done, Event::Released),
        (GatewayCall::Done, Event::Returned { status: 1, allocated: true }),
    ];
    for (call, event) in cases {
        let (call, action) = call.step(event);
        assert!(matches!(call, GatewayCall::Done));
        assert!(matches!(action, Action::Finish(Err(ProtectionError))));
    }
}

#[test]
fn round_trip_returns_the_input() {
    let inputs: Vec<Vec<u8>> = vec![
        vec![],
        vec![0],
        vec![0x41, 0x42, 0x43],
        (0..=255u8).collect(),
        vec![0xFF; 100_000],
    ];
    for x in inputs {
        let ciphertext = protect(7, &x).expect("protect");
        assert_eq!(unprotect(7, &ciphertext), Ok(x));
    }
}

#[test]
fn empty_input_is_still_sent_to_the_facility() {
    let mut trace = Vec::new();
    let ciphertext = drive(7, dpapi_wrap(&[]), &mut 0, &mut trace).expect("protect");
    assert_eq!(trace, vec!["invoke", "view", "release", "finish"]);
    assert!(!ciphertext.is_empty());
    assert_eq!(ciphertext, vec![7, 0xD0]);
    assert_eq!(unprotect(7, &ciphertext), Ok(vec![]));
}

#[test]
fn ciphertext_of_another_scope_fails() {
    let ciphertext = protect(1, &[0x41, 0x42, 0x43]).expect("protect");
    assert_eq!(unprotect(2, &ciphertext), Err(ProtectionError));
}

#[test]
fn corrupted_ciphertext_fails() {
    let ciphertext = protect(7, &[0x41, 0x42, 0x43]).expect("protect");
    let mut flipped = ciphertext.clone();
    flipped[1] ^= 0x01;
    assert_eq!(unprotect(7, &flipped), Err(ProtectionError));
    assert_eq!(unprotect(7, &ciphertext[..1]), Err(ProtectionError));
    assert_eq!(unprotect(7, &[]), Err(ProtectionError));
}

#[test]
fn failed_call_views_and_releases_nothing() {
    let mut trace = Vec::new();
    let mut live = 0;
    let result = drive(7, dpapi_unwrap(&[1, 2, 3]), &mut live, &mut trace);
    assert_eq!(result, Err(ProtectionError));
    assert_eq!(trace, vec!["invoke", "finish"]);
    assert_eq!(live, 0);
}

#[test]
fn every_allocation_is_released_exactly_once() {
    let mut live = 0;
    let mut releases = 0;
    for i in 0..10_000u32 {
        let mut trace = Vec::new();
        let x = i.to_le_bytes();
        let ciphertext = drive(7, dpapi_wrap(&x), &mut live, &mut trace).expect("protect");
        assert_eq!(live, 0);
        releases += trace.iter().filter(|a| **a == "release").count();
        let mut trace = Vec::new();
        let back = drive(7, dpapi_unwrap(&ciphertext), &mut live, &mut trace).expect("unprotect");
        assert_eq!(back, x.to_vec());
        assert_eq!(live, 0);
        releases += trace.iter().filter(|a| **a == "release").count();
    }
    assert_eq!(releases, 20_000);
}

#[test]
fn blob_views_the_bytes_it_was_made_of() {
    let bytes = [1u8, 2, 3, 4, 5];
    let blob = Blob::new(&bytes);
    assert_eq!(blob.len(), 5);
    assert!(!blob.is_null());
    assert_eq!(blob.slice(), &bytes[..]);
    assert_eq!(blob.to_vec(), vec![1u8, 2, 3, 4, 5]);
}

#[test]
fn blob_of_no_bytes_is_not_the_placeholder() {
    let blob = Blob::new(&[]);
    assert_eq!(blob.len(), 0);
    assert!(!blob.is_null());
    assert!(blob.slice().is_empty());
}

#[test]
fn placeholder_blob_is_zeroed() {
    let blob = Blob::null();
    assert_eq!(blob.len(), 0);
    assert!(blob.is_null());
    assert!(blob.slice().is_empty());
    assert!(blob.to_vec().is_empty());
}
