//! Data contracts of the Application Insights schema.
use vstd::prelude::*;
use vstd::string::*;
use vstd::utf8::*;

pub mod contexttagkeys;
pub mod data;
pub mod datakind;
pub mod datapointtype;
pub mod domain;
pub mod exceptiondetails;
pub mod response;
pub mod severitylevel;
pub mod stackframe;

pub use contexttagkeys::ContextTagKeys;
pub use data::{Base, Data, DataBuilder};
pub use datakind::{kind_name, DataKind};
pub use datapointtype::DataPointType;
pub use domain::{Domain, DomainBuilder};
pub use exceptiondetails::ExceptionDetails;
pub use response::{Transmission, TransmissionItem};
pub use severitylevel::SeverityLevel;
pub use stackframe::{StackFrame, StackFrameBuilder};

verus! {

/// The text an optional `String` holds.
pub open spec fn opt_string_view(o: Option<String>) -> Option<Seq<char>> {
    match o {
        Some(s) => Some(s@),
        None => None,
    }
}

/// The UTF-8 bytes of `s`.
pub open spec fn utf8_of(s: Seq<char>) -> Seq<u8> {
    encode_utf8(s)
}

/// Whether dropping the last four bytes of `base_type` leaves whole characters.
pub open spec fn truncatable(base_type: Seq<char>) -> bool {
    utf8_of(base_type).len() >= 4 && is_char_boundary(
        utf8_of(base_type),
        utf8_of(base_type).len() - 4,
    )
}

/// The text left of `base_type` once its last four bytes (the `Data` suffix
/// of the schema's type names) are dropped.
pub open spec fn short_name(base_type: Seq<char>) -> Seq<char> {
    decode_utf8(utf8_of(base_type).take(utf8_of(base_type).len() - 4))
}

/// The name of an envelope that carries data of `base_type`, for the
/// instrumentation key `key`.
pub open spec fn envelope_name_text(base_type: Seq<char>, key: Seq<char>) -> Seq<char> {
    if key.len() == 0 {
        "Microsoft.ApplicationInsights."@ + short_name(base_type)
    } else {
        "Microsoft.ApplicationInsights."@ + key + "."@ + short_name(base_type)
    }
}

/// Returns the name used when data of `base_type` is embedded within an
/// envelope for the instrumentation key `key`.
pub fn envelope_name_for(base_type: &str, key: &str) -> (r: String)
    requires
        truncatable(base_type@),
    ensures
        r@ == envelope_name_text(base_type@, key@),
{
    let len = base_type.as_bytes().len();
    let (name, _) = base_type.split_at(len - 4);
    proof {
        encode_utf8_decode_utf8(name@);
        assert(name.spec_bytes() =~= utf8_of(base_type@).take(len - 4));
    }
    let mut text = String::from_str("Microsoft.ApplicationInsights.");
    if key.is_empty() {
        text.append(name);
    } else {
        text.append(key);
        text.append(".");
        text.append(name);
    }
    text
}

/// Common interface implemented by telemetry data contacts.
pub trait TelemetryData {
    /// The base type this data reports.
    spec fn spec_base_type(&self) -> Seq<char>;

    /// Returns the name used when this is embedded within an envelope container.
    fn envelope_name(&self, key: &str) -> (r: String)
        ensures
            r@ == envelope_name_text(self.spec_base_type(), key@),
    {
        let base_type = self.base_type();
        envelope_name_for(base_type.as_str(), key)
    }

    /// Returns the base type when placed within a data container: the name
    /// of the schema type, which ends in `Data`.
    fn base_type(&self) -> (r: String)
        ensures
            r@ == self.spec_base_type(),
            truncatable(r@),
    ;
}

} // verus!
