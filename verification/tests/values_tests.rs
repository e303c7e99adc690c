use sentry::errors::CaptureError;
use sentry::pipeline::PipelineSpec;
use sentry::values::{JsonValue, OnOff, StreamDescriptor, Value};

#[test]
fn on_off_serializes_to_wire_strings() {
    match OnOff::On.serialize() {
        JsonValue::Str(s) => assert_eq!(s, "On"),
        _ => panic!("On must serialize to a string"),
    }
    match OnOff::Off.serialize() {
        JsonValue::Str(s) => assert_eq!(s, "Off"),
        _ => panic!("Off must serialize to a string"),
    }
}

#[test]
fn on_off_parses_both_directions() {
    let on = OnOff::On.serialize();
    let off = OnOff::Off.serialize();
    assert_eq!(OnOff::parse(&on), Ok(OnOff::On));
    assert_eq!(OnOff::parse(&off), Ok(OnOff::Off));
}

#[test]
fn on_off_rejects_everything_else() {
    let bad = JsonValue::Str(String::from("neither"));
    assert_eq!(OnOff::parse(&bad), Err(CaptureError::ValueTypeMismatch));
    let number = JsonValue::U64(1);
    assert_eq!(OnOff::parse(&number), Err(CaptureError::ValueTypeMismatch));
}

#[test]
fn descriptor_serializes_to_port_object() {
    let d = StreamDescriptor { port: 8554 };
    match d.serialize() {
        JsonValue::Object(fields) => {
            assert_eq!(fields.len(), 1);
            assert_eq!(fields[0].0, "port");
            match fields[0].1 {
                JsonValue::U64(p) => assert_eq!(p, 8554),
                _ => panic!("the port must serialize as an integer"),
            }
        },
        _ => panic!("a descriptor must serialize to an object"),
    }
}

#[test]
fn descriptor_cannot_be_parsed() {
    let wire = StreamDescriptor { port: 8554 }.serialize();
    assert_eq!(
        StreamDescriptor::parse(&wire),
        Err(CaptureError::ValueTypeMismatch)
    );
}

#[test]
fn descriptors_are_never_equal() {
    let a = StreamDescriptor { port: 8554 };
    let b = StreamDescriptor { port: 8554 };
    assert!(a != b);
    assert!(a != a);
}

#[test]
fn cast_on_off_accepts_only_toggles() {
    assert_eq!(Value::OnOff(OnOff::On).cast_on_off(), Ok(OnOff::On));
    assert_eq!(
        Value::Stream(StreamDescriptor { port: 1 }).cast_on_off(),
        Err(CaptureError::ValueTypeMismatch)
    );
    assert_eq!(
        Value::Json(JsonValue::U64(0)).cast_on_off(),
        Err(CaptureError::ValueTypeMismatch)
    );
}

#[test]
fn live_spec_renders_the_full_description() {
    let spec = PipelineSpec::live();
    assert_eq!(
        spec.render(),
        "wrappercamerabinsrc mode=2 ! \
         videoconvert ! videoscale ! video/x-raw, width=320, height=240 ! \
         theoraenc ! oggmux ! \
         tcpserversink host=127.0.0.1 port=0 name=server"
    );
}

#[test]
fn record_spec_sinks_to_the_storage_root() {
    let spec = PipelineSpec::record("/var/media/cam");
    assert_eq!(spec.sink, "filesink location=\"/var/media/cam/record.ogg\"");
    assert_eq!(spec.capture, "wrappercamerabinsrc mode=2");
    assert_eq!(
        spec.decode,
        "videoconvert ! videoscale ! video/x-raw, width=320, height=240"
    );
    assert_eq!(spec.encode, "theoraenc ! oggmux");
}

#[test]
fn describe_renders_the_port_in_decimal() {
    assert_eq!(
        StreamDescriptor { port: 8554 }.describe(),
        "Html5Video (port 8554)"
    );
    assert_eq!(StreamDescriptor { port: 0 }.describe(), "Html5Video (port 0)");
    assert_eq!(
        StreamDescriptor { port: 65535 }.describe(),
        "Html5Video (port 65535)"
    );
    assert_eq!(
        StreamDescriptor { port: 10 }.describe(),
        "Html5Video (port 10)"
    );
}
