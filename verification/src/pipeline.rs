//! Declarative capture pipeline descriptions.
//!
//! A [`PipelineSpec`] is the four-stage description handed to the external
//! capture engine: capture the camera, decode and scale, re-encode, and
//! send the result to a sink. The two canonical instances differ only in
//! the sink: the live spec streams over a TCP port the operating system
//! picks, the record spec writes one file under the storage root.

use vstd::prelude::*;

verus! {

/// The fixed capture stage: read the built-in camera.
pub open spec fn capture_stage() -> Seq<char> {
    "wrappercamerabinsrc mode=2"@
}

/// The fixed decode stage: decode and reduce the resolution.
pub open spec fn decode_stage() -> Seq<char> {
    "videoconvert ! videoscale ! video/x-raw, width=320, height=240"@
}

/// The fixed encode stage: re-encode as ogg/theora.
pub open spec fn encode_stage() -> Seq<char> {
    "theoraenc ! oggmux"@
}

/// The live sink: a local TCP server on a port the operating system
/// assigns (port 0 requests "pick any free port"); the element is named
/// so the allocated port can be read back after startup.
pub open spec fn live_sink_stage() -> Seq<char> {
    "tcpserversink host=127.0.0.1 port=0 name=server"@
}

/// The one fixed recording destination under a storage root.
pub open spec fn record_destination(root: Seq<char>) -> Seq<char> {
    root + "/record.ogg"@
}

/// The record sink: write the stream to a file at `dest`.
pub open spec fn record_sink_stage(dest: Seq<char>) -> Seq<char> {
    "filesink location=\""@ + dest + "\""@
}

/// A declarative capture/encode/transport description, consumed by the
/// external engine as one string (see [`PipelineSpec::render`]).
#[derive(Debug)]
pub struct PipelineSpec {
    pub capture: String,
    pub decode: String,
    pub encode: String,
    pub sink: String,
}

impl PipelineSpec {
    /// True of the canonical live-view spec.
    pub open spec fn is_live(&self) -> bool {
        &&& self.capture@ == capture_stage()
        &&& self.decode@ == decode_stage()
        &&& self.encode@ == encode_stage()
        &&& self.sink@ == live_sink_stage()
    }

    /// True of the canonical record-to-file spec for the given root.
    pub open spec fn is_record_for(&self, root: Seq<char>) -> bool {
        &&& self.capture@ == capture_stage()
        &&& self.decode@ == decode_stage()
        &&& self.encode@ == encode_stage()
        &&& self.sink@ == record_sink_stage(record_destination(root))
    }

    /// Builds the live-view spec: stream over an ephemeral local port.
    pub fn live() -> (r: PipelineSpec)
        ensures
            r.is_live(),
    {
        PipelineSpec {
            capture: String::from_str("wrappercamerabinsrc mode=2"),
            decode: String::from_str(
                "videoconvert ! videoscale ! video/x-raw, width=320, height=240",
            ),
            encode: String::from_str("theoraenc ! oggmux"),
            sink: String::from_str("tcpserversink host=127.0.0.1 port=0 name=server"),
        }
    }

    /// Builds the record-to-file spec: write to the fixed file under the
    /// given storage root.
    pub fn record(storage_root: &str) -> (r: PipelineSpec)
        ensures
            r.is_record_for(storage_root@),
    {
        let mut sink = String::from_str("filesink location=\"");
        sink.append(storage_root);
        sink.append("/record.ogg");
        sink.append("\"");
        proof {
            assert(sink@ =~= record_sink_stage(record_destination(storage_root@)));
        }
        PipelineSpec {
            capture: String::from_str("wrappercamerabinsrc mode=2"),
            decode: String::from_str(
                "videoconvert ! videoscale ! video/x-raw, width=320, height=240",
            ),
            encode: String::from_str("theoraenc ! oggmux"),
            sink,
        }
    }

    /// The one-string rendering of the spec: the four stages joined by
    /// `" ! "`, in order.
    pub open spec fn rendered(&self) -> Seq<char> {
        self.capture@ + " ! "@ + self.decode@ + " ! "@ + self.encode@ + " ! "@ + self.sink@
    }

    /// Renders the spec to the single declarative string the external
    /// engine consumes.
    pub fn render(&self) -> (r: String)
        ensures
            r@ == self.rendered(),
    {
        let mut out = self.capture.clone();
        out.append(" ! ");
        out.append(self.decode.as_str());
        out.append(" ! ");
        out.append(self.encode.as_str());
        out.append(" ! ");
        out.append(self.sink.as_str());
        out
    }
}

} // verus!
