use vstd::prelude::*;

verus! {

/// Status code of a driver call that succeeded.
pub const STATUS_OK: u32 = 0x0000_0000;

/// A failure that a driver call reported, or `Unknown` for a status code
/// outside the catalogue.
#[derive(Debug, Clone, Copy, PartialEq, Eq, Structural)]
pub enum PcanError {
    XmtFull,
    Overrun,
    BusLight,
    BusHeavy,
    BusPassive,
    BusOff,
    AnyBusErr,
    QrcvEmpty,
    QOverrun,
    QXmtFull,
    RegTest,
    NoDriver,
    HwInUse,
    NetInUse,
    IllHw,
    IllNet,
    IllClient,
    Resource,
    IllParamType,
    IllParamVal,
    Unknown,
    IllData,
    IllMode,
    Caution,
    Initialize,
    IllOperation,
}

/// The status code by which the driver reports each failure.
pub open spec fn error_code(e: PcanError) -> u32 {
    match e {
        PcanError::XmtFull => 0x0000_0001,
        PcanError::Overrun => 0x0000_0002,
        PcanError::BusLight => 0x0000_0004,
        PcanError::BusHeavy => 0x0000_0008,
        PcanError::BusPassive => 0x0004_0000,
        PcanError::BusOff => 0x0000_0010,
        PcanError::AnyBusErr => 0x0004_001C,
        PcanError::QrcvEmpty => 0x0000_0020,
        PcanError::QOverrun => 0x0000_0040,
        PcanError::QXmtFull => 0x0000_0080,
        PcanError::RegTest => 0x0000_0100,
        PcanError::NoDriver => 0x0000_0200,
        PcanError::HwInUse => 0x0000_0400,
        PcanError::NetInUse => 0x0000_0800,
        PcanError::IllHw => 0x0000_1400,
        PcanError::IllNet => 0x0000_1800,
        PcanError::IllClient => 0x0000_1C00,
        PcanError::Resource => 0x0000_2000,
        PcanError::IllParamType => 0x0000_4000,
        PcanError::IllParamVal => 0x0000_8000,
        PcanError::Unknown => 0x0001_0000,
        PcanError::IllData => 0x0002_0000,
        PcanError::IllMode => 0x0008_0000,
        PcanError::Caution => 0x0200_0000,
        PcanError::Initialize => 0x0400_0000,
        PcanError::IllOperation => 0x0800_0000,
    }
}

/// The catalogued failure that a status code names, if any.
pub open spec fn catalogued(code: u32) -> Option<PcanError> {
    match code {
        0x0000_0001 => Some(PcanError::XmtFull),
        0x0000_0002 => Some(PcanError::Overrun),
        0x0000_0004 => Some(PcanError::BusLight),
        0x0000_0008 => Some(PcanError::BusHeavy),
        0x0004_0000 => Some(PcanError::BusPassive),
        0x0000_0010 => Some(PcanError::BusOff),
        0x0004_001C => Some(PcanError::AnyBusErr),
        0x0000_0020 => Some(PcanError::QrcvEmpty),
        0x0000_0040 => Some(PcanError::QOverrun),
        0x0000_0080 => Some(PcanError::QXmtFull),
        0x0000_0100 => Some(PcanError::RegTest),
        0x0000_0200 => Some(PcanError::NoDriver),
        0x0000_0400 => Some(PcanError::HwInUse),
        0x0000_0800 => Some(PcanError::NetInUse),
        0x0000_1400 => Some(PcanError::IllHw),
        0x0000_1800 => Some(PcanError::IllNet),
        0x0000_1C00 => Some(PcanError::IllClient),
        0x0000_2000 => Some(PcanError::Resource),
        0x0000_4000 => Some(PcanError::IllParamType),
        0x0000_8000 => Some(PcanError::IllParamVal),
        0x0001_0000 => Some(PcanError::Unknown),
        0x0002_0000 => Some(PcanError::IllData),
        0x0008_0000 => Some(PcanError::IllMode),
        0x0200_0000 => Some(PcanError::Caution),
        0x0400_0000 => Some(PcanError::Initialize),
        0x0800_0000 => Some(PcanError::IllOperation),
        _ => None,
    }
}

/// What a status code means: success for `STATUS_OK`, the catalogued failure
/// with that code, and `Unknown` for any other code.
pub open spec fn status_meaning(code: u32) -> Result<(), PcanError> {
    if code == STATUS_OK {
        Ok(())
    } else {
        match catalogued(code) {
            Some(e) => Err(e),
            None => Err(PcanError::Unknown),
        }
    }
}

impl PcanError {
    /// The status code of this failure.
    pub fn code(&self) -> (r: u32)
        ensures
            r == error_code(*self),
    {
        match self {
            PcanError::XmtFull => 0x0000_0001,
            PcanError::Overrun => 0x0000_0002,
            PcanError::BusLight => 0x0000_0004,
            PcanError::BusHeavy => 0x0000_0008,
            PcanError::BusPassive => 0x0004_0000,
            PcanError::BusOff => 0x0000_0010,
            PcanError::AnyBusErr => 0x0004_001C,
            PcanError::QrcvEmpty => 0x0000_0020,
            PcanError::QOverrun => 0x0000_0040,
            PcanError::QXmtFull => 0x0000_0080,
            PcanError::RegTest => 0x0000_0100,
            PcanError::NoDriver => 0x0000_0200,
            PcanError::HwInUse => 0x0000_0400,
            PcanError::NetInUse => 0x0000_0800,
            PcanError::IllHw => 0x0000_1400,
            PcanError::IllNet => 0x0000_1800,
            PcanError::IllClient => 0x0000_1C00,
            PcanError::Resource => 0x0000_2000,
            PcanError::IllParamType => 0x0000_4000,
            PcanError::IllParamVal => 0x0000_8000,
            PcanError::Unknown => 0x0001_0000,
            PcanError::IllData => 0x0002_0000,
            PcanError::IllMode => 0x0008_0000,
            PcanError::Caution => 0x0200_0000,
            PcanError::Initialize => 0x0400_0000,
            PcanError::IllOperation => 0x0800_0000,
        }
    }
}

/// Decodes the status code that a driver call returned: the single rule
/// that every operation of the library shares.
pub fn decode_status(code: u32) -> (r: Result<(), PcanError>)
    ensures
        r == status_meaning(code),
{
    let r = match code {
        0x0000_0000 => Ok(()),
        0x0000_0001 => Err(PcanError::XmtFull),
        0x0000_0002 => Err(PcanError::Overrun),
        0x0000_0004 => Err(PcanError::BusLight),
        0x0000_0008 => Err(PcanError::BusHeavy),
        0x0004_0000 => Err(PcanError::BusPassive),
        0x0000_0010 => Err(PcanError::BusOff),
        0x0004_001C => Err(PcanError::AnyBusErr),
        0x0000_0020 => Err(PcanError::QrcvEmpty),
        0x0000_0040 => Err(PcanError::QOverrun),
        0x0000_0080 => Err(PcanError::QXmtFull),
        0x0000_0100 => Err(PcanError::RegTest),
        0x0000_0200 => Err(PcanError::NoDriver),
        0x0000_0400 => Err(PcanError::HwInUse),
        0x0000_0800 => Err(PcanError::NetInUse),
        0x0000_1400 => Err(PcanError::IllHw),
        0x0000_1800 => Err(PcanError::IllNet),
        0x0000_1C00 => Err(PcanError::IllClient),
        0x0000_2000 => Err(PcanError::Resource),
        0x0000_4000 => Err(PcanError::IllParamType),
        0x0000_8000 => Err(PcanError::IllParamVal),
        0x0001_0000 => Err(PcanError::Unknown),
        0x0002_0000 => Err(PcanError::IllData),
        0x0008_0000 => Err(PcanError::IllMode),
        0x0200_0000 => Err(PcanError::Caution),
        0x0400_0000 => Err(PcanError::Initialize),
        0x0800_0000 => Err(PcanError::IllOperation),
        _ => Err(PcanError::Unknown),
    };
    r
}

/// Each failure's status code decodes to that failure, and no failure has
/// the success code.
pub proof fn lemma_code_round_trip(e: PcanError)
    ensures
        error_code(e) != STATUS_OK,
        status_meaning(error_code(e)) == Err::<(), PcanError>(e),
{
}


/// Value of an on/off driver parameter that is off.
pub const PARAMETER_OFF: u32 = 0x00;

/// Value of an on/off driver parameter that is on.
pub const PARAMETER_ON: u32 = 0x01;

/// What reading an on/off parameter yields, given the status code and the
/// value the driver returned: the failure that the status names, else
/// whether the value is other than off.
pub fn decode_switch(status: u32, value: u32) -> (r: Result<bool, PcanError>)
    ensures
        status_meaning(status) matches Err(e) ==> r == Err::<bool, PcanError>(e),
        status_meaning(status) is Ok ==> r == Ok::<bool, PcanError>(value != PARAMETER_OFF),
{
    match decode_status(status) {
        Ok(()) => Ok(value != PARAMETER_OFF),
        Err(e) => Err(e),
    }
}

/// The value by which an on/off parameter is set.
pub fn switch_value(on: bool) -> (r: u32)
    ensures
        r == if on { PARAMETER_ON } else { PARAMETER_OFF },
{
    if on { PARAMETER_ON } else { PARAMETER_OFF }
}

} // verus!
