use sentry::adapter::{Adapter, SendPreparation};
use sentry::engine::EngineHandle;
use sentry::errors::{CaptureError, Operation};
use sentry::values::{JsonValue, OnOff, Value};

fn fresh() -> Adapter {
    Adapter::new(String::from("/var/media/cam"))
}

fn live_id(a: &Adapter) -> String {
    a.live_channel()
}

fn rec_id(a: &Adapter) -> String {
    a.recording_channel()
}

// Drives one fetch batch the way the embedding program does: prepare,
// perform the launch (here: the given test outcome), complete. Counts
// engine starts.
fn do_fetch(
    ids: Vec<String>,
    a: &mut Adapter,
    outcome: Option<Result<EngineHandle, CaptureError>>,
    starts: &mut usize,
) -> Vec<(String, Result<Option<Value>, CaptureError>)> {
    let launch = match a.fetch_prepare(&ids) {
        Some(_spec) => {
            *starts += 1;
            Some(outcome.expect("the batch needs a launch outcome"))
        },
        None => None,
    };
    a.fetch_values(ids, launch)
}

// Drives one send batch: prepare, perform the launch or termination
// (here: the given test outcomes), complete. Counts starts and stops.
fn do_send(
    assignments: Vec<(String, Value)>,
    a: &mut Adapter,
    launch_outcome: Option<Result<EngineHandle, CaptureError>>,
    termination_result: Option<Result<(), CaptureError>>,
    starts: &mut usize,
    stops: &mut usize,
) -> Vec<(String, Result<(), CaptureError>)> {
    match a.send_prepare(&assignments) {
        SendPreparation::NoEngineWork => a.send_values(assignments, None, None),
        SendPreparation::LaunchRecord(_spec) => {
            *starts += 1;
            let o = launch_outcome.expect("the batch needs a launch outcome");
            a.send_values(assignments, Some(o), None)
        },
        SendPreparation::Terminate(_h) => {
            *stops += 1;
            let t = termination_result.expect("the batch needs a termination result");
            a.send_values(assignments, None, Some(t))
        },
    }
}

fn on_value() -> Value {
    Value::OnOff(OnOff::On)
}

fn off_value() -> Value {
    Value::OnOff(OnOff::Off)
}

#[test]
fn metadata_is_fixed() {
    let a = fresh();
    assert_eq!(a.id(), "sentry@foxlink.mozilla.org");
    assert_eq!(a.name(), "Built-in camera");
    assert_eq!(a.vendor(), "Mozilla");
    assert_eq!(a.version(), [0, 1, 0, 0]);
    assert_eq!(a.live_channel(), "sentry@foxlink.mozilla.org/livestream/html5");
    assert_eq!(a.recording_channel(), "sentry@foxlink.mozilla.org/record/ogg");
}

#[test]
fn routing_answers_every_id_exactly_once() {
    let mut a = fresh();
    let mut starts = 0;
    let live = live_id(&a);
    let ids = vec![live.clone(), String::from("unknown/channel")];
    let r = do_fetch(
        ids,
        &mut a,
        Some(Ok(EngineHandle { job: 1, port: Some(8554) })),
        &mut starts,
    );
    assert_eq!(r.len(), 2);
    assert_eq!(r[0].0, live);
    match &r[0].1 {
        Ok(Some(Value::Stream(d))) => assert_eq!(d.port, 8554),
        _ => panic!("the live channel must answer with its descriptor"),
    }
    assert_eq!(r[1].0, "unknown/channel");
    match &r[1].1 {
        Err(CaptureError::OperationNotSupported(op, id)) => {
            assert_eq!(*op, Operation::Fetch);
            assert_eq!(id, "unknown/channel");
        },
        _ => panic!("an unknown channel is not supported"),
    }
}

#[test]
fn repeated_fetches_reuse_the_descriptor() {
    let mut a = fresh();
    let mut starts = 0;
    let first = do_fetch(
        vec![live_id(&a)],
        &mut a,
        Some(Ok(EngineHandle { job: 1, port: Some(8554) })),
        &mut starts,
    );
    let second = do_fetch(
        vec![live_id(&a)],
        &mut a, None, &mut starts);
    let port_of = |r: &Vec<(String, Result<Option<Value>, CaptureError>)>| match &r[0].1 {
        Ok(Some(Value::Stream(d))) => d.port,
        _ => panic!("the live channel must answer with its descriptor"),
    };
    assert_eq!(port_of(&first), port_of(&second));
    assert_eq!(starts, 1);
}

#[test]
fn failed_live_launch_propagates_and_leaves_the_session_cold() {
    let mut a = fresh();
    let mut starts = 0;
    let r = do_fetch(
        vec![live_id(&a)],
        &mut a,
        Some(Err(CaptureError::PortNotAllocated)),
        &mut starts,
    );
    match &r[0].1 {
        Err(CaptureError::PortNotAllocated) => {},
        _ => panic!("the launch error must propagate"),
    }
    // The session stayed cold: the next fetch asks for a launch again.
    let r2 = do_fetch(
        vec![live_id(&a)],
        &mut a,
        Some(Ok(EngineHandle { job: 2, port: Some(8555) })),
        &mut starts,
    );
    match &r2[0].1 {
        Ok(Some(Value::Stream(d))) => assert_eq!(d.port, 8555),
        _ => panic!("the retry must succeed"),
    }
    assert_eq!(starts, 2);
}

#[test]
fn fetching_the_recording_channel_reads_the_status() {
    let mut a = fresh();
    let mut starts = 0;
    let mut stops = 0;
    let r = do_fetch(
        vec![rec_id(&a)],
        &mut a, None, &mut starts);
    match &r[0].1 {
        Ok(Some(Value::OnOff(t))) => assert_eq!(*t, OnOff::Off),
        _ => panic!("the recording channel must answer with its status"),
    }
    do_send(
        vec![(rec_id(&a), on_value())],
        &mut a,
        Some(Ok(EngineHandle { job: 1, port: None })),
        None,
        &mut starts,
        &mut stops,
    );
    let r2 = do_fetch(
        vec![rec_id(&a)],
        &mut a, None, &mut starts);
    match &r2[0].1 {
        Ok(Some(Value::OnOff(t))) => assert_eq!(*t, OnOff::On),
        _ => panic!("the recording channel must answer with its status"),
    }
    assert_eq!(starts, 1);
}

#[test]
fn second_set_on_never_launches_a_second_engine() {
    let mut a = fresh();
    let mut starts = 0;
    let mut stops = 0;
    let r1 = do_send(
        vec![(rec_id(&a), on_value())],
        &mut a,
        Some(Ok(EngineHandle { job: 1, port: None })),
        None,
        &mut starts,
        &mut stops,
    );
    assert_eq!(r1[0].1, Ok(()));
    let r2 = do_send(
        vec![(rec_id(&a), on_value())],
        &mut a,
        None,
        None,
        &mut starts,
        &mut stops,
    );
    assert_eq!(r2[0].1, Ok(()));
    assert_eq!(starts, 1);
    assert_eq!(stops, 0);
}

#[test]
fn set_off_when_off_performs_no_stop() {
    let mut a = fresh();
    let mut starts = 0;
    let mut stops = 0;
    let r = do_send(
        vec![(rec_id(&a), off_value())],
        &mut a,
        None,
        None,
        &mut starts,
        &mut stops,
    );
    assert_eq!(r[0].1, Ok(()));
    assert_eq!(starts, 0);
    assert_eq!(stops, 0);
}

#[test]
fn set_off_terminates_and_reports_the_result() {
    let mut a = fresh();
    let mut starts = 0;
    let mut stops = 0;
    do_send(
        vec![(rec_id(&a), on_value())],
        &mut a,
        Some(Ok(EngineHandle { job: 9, port: None })),
        None,
        &mut starts,
        &mut stops,
    );
    let r = do_send(
        vec![(rec_id(&a), off_value())],
        &mut a,
        None,
        Some(Ok(())),
        &mut starts,
        &mut stops,
    );
    assert_eq!(r[0].1, Ok(()));
    assert_eq!(stops, 1);
    // And the controller really is off again.
    let status = do_fetch(
        vec![rec_id(&a)],
        &mut a, None, &mut starts);
    match &status[0].1 {
        Ok(Some(Value::OnOff(t))) => assert_eq!(*t, OnOff::Off),
        _ => panic!("the recording channel must answer with its status"),
    }
}

#[test]
fn termination_failure_is_reported_but_recording_is_off() {
    let mut a = fresh();
    let mut starts = 0;
    let mut stops = 0;
    do_send(
        vec![(rec_id(&a), on_value())],
        &mut a,
        Some(Ok(EngineHandle { job: 9, port: None })),
        None,
        &mut starts,
        &mut stops,
    );
    let r = do_send(
        vec![(rec_id(&a), off_value())],
        &mut a,
        None,
        Some(Err(CaptureError::BackendStartupFailed)),
        &mut starts,
        &mut stops,
    );
    // Best effort: the failure reaches the caller, the state is off.
    assert_eq!(r[0].1, Err(CaptureError::BackendStartupFailed));
    let status = do_fetch(
        vec![rec_id(&a)],
        &mut a, None, &mut starts);
    match &status[0].1 {
        Ok(Some(Value::OnOff(t))) => assert_eq!(*t, OnOff::Off),
        _ => panic!("the recording channel must answer with its status"),
    }
    // A second stop is a plain no-op success.
    let r2 = do_send(
        vec![(rec_id(&a), off_value())],
        &mut a,
        None,
        None,
        &mut starts,
        &mut stops,
    );
    assert_eq!(r2[0].1, Ok(()));
    assert_eq!(stops, 1);
}

#[test]
fn type_mismatch_is_reported_and_changes_nothing() {
    let mut a = fresh();
    let mut starts = 0;
    let mut stops = 0;
    let bad = Value::Json(JsonValue::Str(String::from("not-a-boolean-like-value")));
    let r = do_send(
        vec![(rec_id(&a), bad)],
        &mut a,
        None,
        None,
        &mut starts,
        &mut stops,
    );
    assert_eq!(r.len(), 1);
    assert_eq!(r[0].1, Err(CaptureError::ValueTypeMismatch));
    assert_eq!(starts, 0);
    let status = do_fetch(
        vec![rec_id(&a)],
        &mut a, None, &mut starts);
    match &status[0].1 {
        Ok(Some(Value::OnOff(t))) => assert_eq!(*t, OnOff::Off),
        _ => panic!("the recording channel must answer with its status"),
    }
}

#[test]
fn all_backends_failing_leaves_recording_off() {
    let mut a = fresh();
    let mut starts = 0;
    let mut stops = 0;
    let r = do_send(
        vec![(rec_id(&a), on_value())],
        &mut a,
        Some(Err(CaptureError::NoBackendAvailable)),
        None,
        &mut starts,
        &mut stops,
    );
    assert_eq!(r[0].1, Err(CaptureError::NoBackendAvailable));
    assert_eq!(starts, 1);
    let status = do_fetch(
        vec![rec_id(&a)],
        &mut a, None, &mut starts);
    match &status[0].1 {
        Ok(Some(Value::OnOff(t))) => assert_eq!(*t, OnOff::Off),
        _ => panic!("the recording channel must answer with its status"),
    }
    // And a later start can still succeed.
    let r2 = do_send(
        vec![(rec_id(&a), on_value())],
        &mut a,
        Some(Ok(EngineHandle { job: 1, port: None })),
        None,
        &mut starts,
        &mut stops,
    );
    assert_eq!(r2[0].1, Ok(()));
}

#[test]
fn sends_to_other_channels_are_not_supported() {
    let mut a = fresh();
    let mut starts = 0;
    let mut stops = 0;
    let r = do_send(
        vec![ (live_id(&a), on_value()), (rec_id(&a), on_value()), ],
        &mut a,
        Some(Ok(EngineHandle { job: 1, port: None })),
        None,
        &mut starts,
        &mut stops,
    );
    assert_eq!(r.len(), 2);
    match &r[0].1 {
        Err(CaptureError::OperationNotSupported(op, id)) => {
            assert_eq!(*op, Operation::Send);
            assert_eq!(id, "sentry@foxlink.mozilla.org/livestream/html5");
        },
        _ => panic!("a send to the live channel is not supported"),
    }
    // One entry's failure never touches another entry's result.
    assert_eq!(r[1].1, Ok(()));
}

#[test]
fn empty_batches_answer_with_empty_maps() {
    let mut a = fresh();
    let mut starts = 0;
    let mut stops = 0;
    let fetched = do_fetch(vec![], &mut a, None, &mut starts);
    assert!(fetched.is_empty());
    let sent = do_send(vec![], &mut a, None, None, &mut starts, &mut stops);
    assert!(sent.is_empty());
    assert_eq!(starts, 0);
    assert_eq!(stops, 0);
}
