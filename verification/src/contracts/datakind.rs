//! The kinds of telemetry data an envelope can carry.
use vstd::prelude::*;
use vstd::utf8::*;

use super::{truncatable, utf8_of, TelemetryData};

verus! {

/// Which schema type the data of an envelope has. The envelope's name and
/// the `baseType` of its data depend on this alone.
#[derive(Debug, Clone, Copy, PartialEq, Eq)]
pub enum DataKind {
    Availability,
    Event,
    Exception,
    Message,
    Metric,
    PageView,
    RemoteDependency,
    Request,
}

/// The schema name of the data of `kind`.
pub open spec fn kind_name(kind: DataKind) -> Seq<char> {
    match kind {
        DataKind::Availability => "AvailabilityData"@,
        DataKind::Event => "EventData"@,
        DataKind::Exception => "ExceptionData"@,
        DataKind::Message => "MessageData"@,
        DataKind::Metric => "MetricData"@,
        DataKind::PageView => "PageViewData"@,
        DataKind::RemoteDependency => "RemoteDependencyData"@,
        DataKind::Request => "RequestData"@,
    }
}

/// An ASCII name of four characters or more can lose its last four bytes.
proof fn lemma_ascii_truncatable(s: Seq<char>)
    requires
        is_ascii_chars(s),
        s.len() >= 4,
    ensures
        truncatable(s),
{
    let bytes = utf8_of(s);
    is_ascii_chars_encode_utf8(s);
    encode_utf8_valid_utf8(s);
    let index = bytes.len() - 4;
    if index > 0 {
        assert(s[index] as u8 == bytes[index]);
        is_char_boundary_iff_not_is_continuation_byte(bytes, index);
    }
}

impl TelemetryData for DataKind {
    open spec fn spec_base_type(&self) -> Seq<char> {
        kind_name(*self)
    }

    fn base_type(&self) -> (r: String) {
        let name = match self {
            DataKind::Availability => "AvailabilityData",
            DataKind::Event => "EventData",
            DataKind::Exception => "ExceptionData",
            DataKind::Message => "MessageData",
            DataKind::Metric => "MetricData",
            DataKind::PageView => "PageViewData",
            DataKind::RemoteDependency => "RemoteDependencyData",
            DataKind::Request => "RequestData",
        };
        proof {
            reveal_strlit("AvailabilityData");
            reveal_strlit("EventData");
            reveal_strlit("ExceptionData");
            reveal_strlit("MessageData");
            reveal_strlit("MetricData");
            reveal_strlit("PageViewData");
            reveal_strlit("RemoteDependencyData");
            reveal_strlit("RequestData");
            assert(is_ascii_chars(name@));
            lemma_ascii_truncatable(name@);
        }
        String::from_str(name)
    }
}

} // verus!
