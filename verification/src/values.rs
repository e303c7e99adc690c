//! The channel values the adapter reads and writes.
//!
//! A fetch on the live-view channel yields a [`StreamDescriptor`]; the
//! recording channel is read and written as an [`OnOff`] toggle. Both are
//! carried inside the dynamically typed [`Value`], and their wire shape is
//! the small JSON-like [`JsonValue`].

use vstd::prelude::*;

use crate::errors::CaptureError;

verus! {

/// The two-variant toggle of the recording channel.
#[derive(Clone, Copy, PartialEq, Eq, Structural, Debug)]
pub enum OnOff {
    On,
    Off,
}

/// A JSON-like value: the wire shape of everything the adapter exchanges.
#[derive(Debug)]
pub enum JsonValue {
    U64(u64),
    Str(String),
    Object(Vec<(String, JsonValue)>),
}

/// The descriptor of a live stream: the local TCP port on which the
/// encoded stream can be consumed. Server generated and read-only; it is
/// meaningful only while the engine that allocated the port is running.
#[derive(Clone, Copy, Debug)]
pub struct StreamDescriptor {
    pub port: u16,
}

/// The character of one decimal digit.
pub open spec fn digit_char(d: nat) -> char {
    if d == 0 {
        '0'
    } else if d == 1 {
        '1'
    } else if d == 2 {
        '2'
    } else if d == 3 {
        '3'
    } else if d == 4 {
        '4'
    } else if d == 5 {
        '5'
    } else if d == 6 {
        '6'
    } else if d == 7 {
        '7'
    } else if d == 8 {
        '8'
    } else {
        '9'
    }
}

/// The decimal rendering of a number, most significant digit first and
/// without leading zeros (zero itself renders as one digit).
pub open spec fn decimal_digits(n: nat) -> Seq<char>
    decreases n,
{
    if n < 10 {
        seq![digit_char(n)]
    } else {
        decimal_digits(n / 10).push(digit_char(n % 10))
    }
}

/// Appends one decimal digit's character.
fn append_digit(s: &mut String, d: u16)
    requires
        d < 10,
    ensures
        final(s)@ == old(s)@.push(digit_char(d as nat)),
{
    if d == 0 {
        s.append("0");
        proof {
            reveal_strlit("0");
            assert(s@ =~= old(s)@.push('0'));
        }
    } else if d == 1 {
        s.append("1");
        proof {
            reveal_strlit("1");
            assert(s@ =~= old(s)@.push('1'));
        }
    } else if d == 2 {
        s.append("2");
        proof {
            reveal_strlit("2");
            assert(s@ =~= old(s)@.push('2'));
        }
    } else if d == 3 {
        s.append("3");
        proof {
            reveal_strlit("3");
            assert(s@ =~= old(s)@.push('3'));
        }
    } else if d == 4 {
        s.append("4");
        proof {
            reveal_strlit("4");
            assert(s@ =~= old(s)@.push('4'));
        }
    } else if d == 5 {
        s.append("5");
        proof {
            reveal_strlit("5");
            assert(s@ =~= old(s)@.push('5'));
        }
    } else if d == 6 {
        s.append("6");
        proof {
            reveal_strlit("6");
            assert(s@ =~= old(s)@.push('6'));
        }
    } else if d == 7 {
        s.append("7");
        proof {
            reveal_strlit("7");
            assert(s@ =~= old(s)@.push('7'));
        }
    } else if d == 8 {
        s.append("8");
        proof {
            reveal_strlit("8");
            assert(s@ =~= old(s)@.push('8'));
        }
    } else {
        s.append("9");
        proof {
            reveal_strlit("9");
            assert(s@ =~= old(s)@.push('9'));
        }
    }
}

/// Appends the decimal rendering of `n`.
fn push_decimal(s: &mut String, n: u16)
    ensures
        final(s)@ == old(s)@ + decimal_digits(n as nat),
    decreases n,
{
    if n >= 10 {
        push_decimal(s, n / 10);
    }
    append_digit(s, n % 10);
    proof {
        if n >= 10 {
            assert(s@ =~= old(s)@ + decimal_digits(n as nat));
        } else {
            assert(decimal_digits(n as nat) =~= seq![digit_char(n as nat)]);
            assert(s@ =~= old(s)@ + decimal_digits(n as nat));
        }
    }
}

impl OnOff {
    /// The wire form of the toggle: the strings `"On"` and `"Off"`.
    pub fn serialize(&self) -> (r: JsonValue)
        ensures
            r matches JsonValue::Str(s) && s@ == (if *self is On { "On"@ } else { "Off"@ }),
    {
        match *self {
            OnOff::On => JsonValue::Str(String::from_str("On")),
            OnOff::Off => JsonValue::Str(String::from_str("Off")),
        }
    }

    /// Parses the wire form back; every other value is a type mismatch.
    pub fn parse(json: &JsonValue) -> (r: Result<OnOff, CaptureError>)
        ensures
            match *json {
                JsonValue::Str(ref s) => {
                    if s@ == "On"@ {
                        r == Ok::<OnOff, CaptureError>(OnOff::On)
                    } else if s@ == "Off"@ {
                        r == Ok::<OnOff, CaptureError>(OnOff::Off)
                    } else {
                        r == Err::<OnOff, CaptureError>(CaptureError::ValueTypeMismatch)
                    }
                },
                _ => r == Err::<OnOff, CaptureError>(CaptureError::ValueTypeMismatch),
            },
    {
        match json {
            JsonValue::Str(s) => {
                let on = String::from_str("On");
                let off = String::from_str("Off");
                if *s == on {
                    Ok(OnOff::On)
                } else if *s == off {
                    Ok(OnOff::Off)
                } else {
                    Err(CaptureError::ValueTypeMismatch)
                }
            },
            _ => Err(CaptureError::ValueTypeMismatch),
        }
    }
}

impl StreamDescriptor {
    /// A human-readable description of the value kind.
    pub fn description() -> (r: String)
        ensures
            r@ == "Html5 video stream (for testing purposes only)"@,
    {
        String::from_str("Html5 video stream (for testing purposes only)")
    }

    /// Stream descriptors are server generated: parsing external input
    /// always fails with a type mismatch.
    pub fn parse(_json: &JsonValue) -> (r: Result<StreamDescriptor, CaptureError>)
        ensures
            r == Err::<StreamDescriptor, CaptureError>(CaptureError::ValueTypeMismatch),
    {
        Err(CaptureError::ValueTypeMismatch)
    }

    /// A textual rendering of the descriptor, port included.
    pub fn describe(&self) -> (r: String)
        ensures
            r@ == "Html5Video (port "@ + decimal_digits(self.port as nat) + ")"@,
    {
        let mut s = String::from_str("Html5Video (port ");
        push_decimal(&mut s, self.port);
        s.append(")");
        s
    }

    /// The wire form of a descriptor: exactly `{"port": <port>}`.
    pub fn serialize(&self) -> (r: JsonValue)
        ensures
            r matches JsonValue::Object(fields) && fields@.len() == 1 && fields@[0].0@
                == "port"@ && fields@[0].1 == JsonValue::U64(self.port as u64),
    {
        let mut fields: Vec<(String, JsonValue)> = Vec::new();
        fields.push((String::from_str("port"), JsonValue::U64(self.port as u64)));
        JsonValue::Object(fields)
    }
}

/// Two descriptors are never interchangeable, even with identical ports:
/// each stands for a distinct live session. Equality is therefore always
/// false.
impl PartialEq for StreamDescriptor {
    fn eq(&self, _other: &Self) -> bool {
        false
    }
}

impl vstd::std_specs::cmp::PartialEqSpecImpl for StreamDescriptor {
    open spec fn obeys_eq_spec() -> bool {
        true
    }

    open spec fn eq_spec(&self, other: &Self) -> bool {
        false
    }
}

/// A dynamically typed channel value, as handed to or returned from the
/// batched fetch/send entry points.
#[derive(Debug)]
pub enum Value {
    OnOff(OnOff),
    Stream(StreamDescriptor),
    Json(JsonValue),
}

impl Value {
    /// Decodes the value as the recording toggle; anything that is not an
    /// [`OnOff`] is a type mismatch.
    pub fn cast_on_off(&self) -> (r: Result<OnOff, CaptureError>)
        ensures
            match *self {
                Value::OnOff(o) => r == Ok::<OnOff, CaptureError>(o),
                _ => r == Err::<OnOff, CaptureError>(CaptureError::ValueTypeMismatch),
            },
    {
        match self {
            Value::OnOff(o) => Ok(*o),
            _ => Err(CaptureError::ValueTypeMismatch),
        }
    }

    /// True exactly of values that decode to the recording toggle.
    pub open spec fn decodes_to_on_off(&self) -> bool {
        self is OnOff
    }

    /// The toggle a decodable value holds.
    pub open spec fn spec_on_off(&self) -> OnOff
        recommends
            self.decodes_to_on_off(),
    {
        self->OnOff_0
    }
}

} // verus!
