//! Two-way mapping between the quality-of-service enumerations and their
//! fixed wire codes. Each table is written out member by member, so that a
//! reordering of the declarations never moves a code.
use vstd::prelude::*;

use crate::error::{EnumKind, WireError};

verus! {

/// How the replies to one query are merged.
#[derive(Debug, Clone, Copy, PartialEq, Eq, Structural)]
pub enum ConsolidationMode {
    Auto,
    NoConsolidation,
    Monotonic,
    Latest,
}

/// What a publisher does when the network is congested.
#[derive(Debug, Clone, Copy, PartialEq, Eq, Structural)]
pub enum CongestionControl {
    Drop,
    Block,
}

/// The priority of a message.
#[derive(Debug, Clone, Copy, PartialEq, Eq, Structural)]
pub enum Priority {
    RealTime,
    InteractiveHigh,
    InteractiveLow,
    DataHigh,
    Data,
    DataLow,
    Background,
}

/// Whether delivery is retried.
#[derive(Debug, Clone, Copy, PartialEq, Eq, Structural)]
pub enum Reliability {
    Reliable,
    BestEffort,
}

pub open spec fn consolidation_code(m: ConsolidationMode) -> u8 {
    match m {
        ConsolidationMode::Auto => 0,
        ConsolidationMode::NoConsolidation => 1,
        ConsolidationMode::Monotonic => 2,
        ConsolidationMode::Latest => 3,
    }
}

pub open spec fn consolidation_of(c: u64) -> Option<ConsolidationMode> {
    if c == 0 {
        Some(ConsolidationMode::Auto)
    } else if c == 1 {
        Some(ConsolidationMode::NoConsolidation)
    } else if c == 2 {
        Some(ConsolidationMode::Monotonic)
    } else if c == 3 {
        Some(ConsolidationMode::Latest)
    } else {
        None
    }
}

pub open spec fn congestion_code(m: CongestionControl) -> u8 {
    match m {
        CongestionControl::Drop => 0,
        CongestionControl::Block => 1,
    }
}

pub open spec fn congestion_of(c: u64) -> Option<CongestionControl> {
    if c == 0 {
        Some(CongestionControl::Drop)
    } else if c == 1 {
        Some(CongestionControl::Block)
    } else {
        None
    }
}

pub open spec fn priority_code(p: Priority) -> u8 {
    match p {
        Priority::RealTime => 1,
        Priority::InteractiveHigh => 2,
        Priority::InteractiveLow => 3,
        Priority::DataHigh => 4,
        Priority::Data => 5,
        Priority::DataLow => 6,
        Priority::Background => 7,
    }
}

pub open spec fn priority_of(c: u64) -> Option<Priority> {
    if c == 1 {
        Some(Priority::RealTime)
    } else if c == 2 {
        Some(Priority::InteractiveHigh)
    } else if c == 3 {
        Some(Priority::InteractiveLow)
    } else if c == 4 {
        Some(Priority::DataHigh)
    } else if c == 5 {
        Some(Priority::Data)
    } else if c == 6 {
        Some(Priority::DataLow)
    } else if c == 7 {
        Some(Priority::Background)
    } else {
        None
    }
}

pub open spec fn reliability_code(r: Reliability) -> u8 {
    match r {
        Reliability::Reliable => 0,
        Reliability::BestEffort => 1,
    }
}

pub open spec fn reliability_of(c: u64) -> Option<Reliability> {
    if c == 0 {
        Some(Reliability::Reliable)
    } else if c == 1 {
        Some(Reliability::BestEffort)
    } else {
        None
    }
}

/// The result of decoding `c` with the table `table` of enumeration `kind`.
pub open spec fn decoded<T>(table: Option<T>, kind: EnumKind, c: u64) -> Result<T, WireError> {
    match table {
        Some(v) => Ok(v),
        None => Err(WireError::MalformedEnumCode { kind, code: c }),
    }
}

/// An optional decoding result: a present code decodes as `r` does.
pub open spec fn lifted<T>(r: Result<T, WireError>) -> Result<Option<T>, WireError> {
    match r {
        Ok(v) => Ok(Some(v)),
        Err(e) => Err(e),
    }
}

impl ConsolidationMode {
    pub fn to_code(&self) -> (r: u8)
        ensures
            r == consolidation_code(*self),
    {
        match self {
            ConsolidationMode::Auto => 0,
            ConsolidationMode::NoConsolidation => 1,
            ConsolidationMode::Monotonic => 2,
            ConsolidationMode::Latest => 3,
        }
    }

    pub fn from_code(c: u64) -> (r: Result<ConsolidationMode, WireError>)
        ensures
            r == decoded(consolidation_of(c), EnumKind::ConsolidationMode, c),
    {
        match c {
            0 => Ok(ConsolidationMode::Auto),
            1 => Ok(ConsolidationMode::NoConsolidation),
            2 => Ok(ConsolidationMode::Monotonic),
            3 => Ok(ConsolidationMode::Latest),
            _ => Err(WireError::MalformedEnumCode { kind: EnumKind::ConsolidationMode, code: c }),
        }
    }
}

impl CongestionControl {
    pub fn to_code(&self) -> (r: u8)
        ensures
            r == congestion_code(*self),
    {
        match self {
            CongestionControl::Drop => 0,
            CongestionControl::Block => 1,
        }
    }

    pub fn from_code(c: u64) -> (r: Result<CongestionControl, WireError>)
        ensures
            r == decoded(congestion_of(c), EnumKind::CongestionControl, c),
    {
        match c {
            0 => Ok(CongestionControl::Drop),
            1 => Ok(CongestionControl::Block),
            _ => Err(WireError::MalformedEnumCode { kind: EnumKind::CongestionControl, code: c }),
        }
    }
}

impl Priority {
    pub fn to_code(&self) -> (r: u8)
        ensures
            r == priority_code(*self),
    {
        match self {
            Priority::RealTime => 1,
            Priority::InteractiveHigh => 2,
            Priority::InteractiveLow => 3,
            Priority::DataHigh => 4,
            Priority::Data => 5,
            Priority::DataLow => 6,
            Priority::Background => 7,
        }
    }

    pub fn from_code(c: u64) -> (r: Result<Priority, WireError>)
        ensures
            r == decoded(priority_of(c), EnumKind::Priority, c),
    {
        match c {
            1 => Ok(Priority::RealTime),
            2 => Ok(Priority::InteractiveHigh),
            3 => Ok(Priority::InteractiveLow),
            4 => Ok(Priority::DataHigh),
            5 => Ok(Priority::Data),
            6 => Ok(Priority::DataLow),
            7 => Ok(Priority::Background),
            _ => Err(WireError::MalformedEnumCode { kind: EnumKind::Priority, code: c }),
        }
    }
}

impl Reliability {
    pub fn to_code(&self) -> (r: u8)
        ensures
            r == reliability_code(*self),
    {
        match self {
            Reliability::Reliable => 0,
            Reliability::BestEffort => 1,
        }
    }

    pub fn from_code(c: u64) -> (r: Result<Reliability, WireError>)
        ensures
            r == decoded(reliability_of(c), EnumKind::Reliability, c),
    {
        match c {
            0 => Ok(Reliability::Reliable),
            1 => Ok(Reliability::BestEffort),
            _ => Err(WireError::MalformedEnumCode { kind: EnumKind::Reliability, code: c }),
        }
    }
}

/// Field decoder for an optional consolidation code: absence stays absence.
pub fn deserialize_consolidation_mode(c: Option<u64>) -> (r: Result<
    Option<ConsolidationMode>,
    WireError,
>)
    ensures
        c is None ==> r == Ok::<Option<ConsolidationMode>, WireError>(None),
        c matches Some(code) ==> r == lifted(
            decoded(consolidation_of(code), EnumKind::ConsolidationMode, code),
        ),
{
    match c {
        None => Ok(None),
        Some(code) => match ConsolidationMode::from_code(code) {
            Ok(m) => Ok(Some(m)),
            Err(e) => Err(e),
        },
    }
}

/// Field encoder for an optional consolidation mode.
pub fn serialize_consolidation_mode(m: &Option<ConsolidationMode>) -> (r: Option<u8>)
    ensures
        *m is None ==> r is None,
        *m matches Some(v) ==> r == Some(consolidation_code(v)),
{
    match m {
        Some(v) => Some(v.to_code()),
        None => None,
    }
}

/// Field decoder for an optional congestion-control code.
pub fn deserialize_congestion_control(c: Option<u64>) -> (r: Result<
    Option<CongestionControl>,
    WireError,
>)
    ensures
        c is None ==> r == Ok::<Option<CongestionControl>, WireError>(None),
        c matches Some(code) ==> r == lifted(
            decoded(congestion_of(code), EnumKind::CongestionControl, code),
        ),
{
    match c {
        None => Ok(None),
        Some(code) => match CongestionControl::from_code(code) {
            Ok(m) => Ok(Some(m)),
            Err(e) => Err(e),
        },
    }
}

/// Field encoder for an optional congestion control.
pub fn serialize_congestion_control(m: &Option<CongestionControl>) -> (r: Option<u8>)
    ensures
        *m is None ==> r is None,
        *m matches Some(v) ==> r == Some(congestion_code(v)),
{
    match m {
        Some(v) => Some(v.to_code()),
        None => None,
    }
}

/// Field decoder for an optional priority code.
pub fn deserialize_priority(c: Option<u64>) -> (r: Result<Option<Priority>, WireError>)
    ensures
        c is None ==> r == Ok::<Option<Priority>, WireError>(None),
        c matches Some(code) ==> r == lifted(decoded(priority_of(code), EnumKind::Priority, code)),
{
    match c {
        None => Ok(None),
        Some(code) => match Priority::from_code(code) {
            Ok(m) => Ok(Some(m)),
            Err(e) => Err(e),
        },
    }
}

/// Field encoder for an optional priority.
pub fn serialize_priority(m: &Option<Priority>) -> (r: Option<u8>)
    ensures
        *m is None ==> r is None,
        *m matches Some(v) ==> r == Some(priority_code(v)),
{
    match m {
        Some(v) => Some(v.to_code()),
        None => None,
    }
}

/// Field decoder for an optional reliability code.
pub fn deserialize_reliability(c: Option<u64>) -> (r: Result<Option<Reliability>, WireError>)
    ensures
        c is None ==> r == Ok::<Option<Reliability>, WireError>(None),
        c matches Some(code) ==> r == lifted(
            decoded(reliability_of(code), EnumKind::Reliability, code),
        ),
{
    match c {
        None => Ok(None),
        Some(code) => match Reliability::from_code(code) {
            Ok(m) => Ok(Some(m)),
            Err(e) => Err(e),
        },
    }
}

/// Field encoder for an optional reliability.
pub fn serialize_reliability(m: &Option<Reliability>) -> (r: Option<u8>)
    ensures
        *m is None ==> r is None,
        *m matches Some(v) ==> r == Some(reliability_code(v)),
{
    match m {
        Some(v) => Some(v.to_code()),
        None => None,
    }
}

/// Every value decodes back from its own code, in each of the four tables.
pub proof fn lemma_value_round_trip(
    m: ConsolidationMode,
    cc: CongestionControl,
    p: Priority,
    rl: Reliability,
)
    ensures
        consolidation_of(consolidation_code(m) as u64) == Some(m),
        congestion_of(congestion_code(cc) as u64) == Some(cc),
        priority_of(priority_code(p) as u64) == Some(p),
        reliability_of(reliability_code(rl) as u64) == Some(rl),
{
}

/// Every valid code is the code of what it decodes to, in each of the four tables.
pub proof fn lemma_code_round_trip(c: u64)
    ensures
        consolidation_of(c) matches Some(m) ==> consolidation_code(m) as u64 == c,
        congestion_of(c) matches Some(m) ==> congestion_code(m) as u64 == c,
        priority_of(c) matches Some(m) ==> priority_code(m) as u64 == c,
        reliability_of(c) matches Some(m) ==> reliability_code(m) as u64 == c,
{
}

/// Each table accepts exactly its declared codes; any other code is an error
/// that names the enumeration and carries the code.
pub proof fn lemma_codes_outside_rejected(c: u64)
    ensures
        consolidation_of(c) is Some <==> c <= 3,
        congestion_of(c) is Some <==> c <= 1,
        priority_of(c) is Some <==> 1 <= c <= 7,
        reliability_of(c) is Some <==> c <= 1,
        c > 3 ==> decoded(consolidation_of(c), EnumKind::ConsolidationMode, c) == Err::<
            ConsolidationMode,
            WireError,
        >(WireError::MalformedEnumCode { kind: EnumKind::ConsolidationMode, code: c }),
        c > 1 ==> decoded(congestion_of(c), EnumKind::CongestionControl, c) == Err::<
            CongestionControl,
            WireError,
        >(WireError::MalformedEnumCode { kind: EnumKind::CongestionControl, code: c }),
        !(1 <= c <= 7) ==> decoded(priority_of(c), EnumKind::Priority, c) == Err::<
            Priority,
            WireError,
        >(WireError::MalformedEnumCode { kind: EnumKind::Priority, code: c }),
        c > 1 ==> decoded(reliability_of(c), EnumKind::Reliability, c) == Err::<
            Reliability,
            WireError,
        >(WireError::MalformedEnumCode { kind: EnumKind::Reliability, code: c }),
{
}

} // verus!
