use vstd::prelude::*;

verus! {

/// The closed enumerations that cross the wire as small integer codes.
#[derive(Debug, Clone, Copy, PartialEq, Eq, Structural)]
pub enum EnumKind {
    ConsolidationMode,
    CongestionControl,
    Priority,
    Reliability,
}

impl EnumKind {
    /// The enumeration's name, as error messages give it.
    pub fn name(&self) -> (r: &'static str)
        ensures
            *self == EnumKind::ConsolidationMode ==> r@ == "ConsolidationMode"@,
            *self == EnumKind::CongestionControl ==> r@ == "CongestionControl"@,
            *self == EnumKind::Priority ==> r@ == "Priority"@,
            *self == EnumKind::Reliability ==> r@ == "Reliability"@,
    {
        match self {
            EnumKind::ConsolidationMode => "ConsolidationMode",
            EnumKind::CongestionControl => "CongestionControl",
            EnumKind::Priority => "Priority",
            EnumKind::Reliability => "Reliability",
        }
    }
}

/// Why a wire value could not be turned into a message or a field of one.
#[derive(Debug, Clone, Copy, PartialEq, Eq, Structural)]
pub enum WireError {
    /// An integer outside the declared code set of the named enumeration.
    MalformedEnumCode { kind: EnumKind, code: u64 },
    /// Text that is not the canonical standard base64 form of any bytes.
    MalformedBinaryPayload,
    /// Text that is not a valid key expression.
    MalformedKeyExpr,
    /// Text that is not an identifier.
    MalformedId,
    /// A query reply with no shape, or with more than one, populated.
    AmbiguousReplyShape,
}

} // verus!
