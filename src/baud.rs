use vstd::prelude::*;

verus! {

/// The standard bus bit rates.
#[derive(Debug, Clone, Copy, PartialEq, Eq, Structural)]
pub enum Baudrate {
    Baud1M,
    Baud800K,
    Baud500K,
    Baud250K,
    Baud125K,
    Baud100K,
    Baud95K,
    Baud83,
    Baud50K,
    Baud47K,
    Baud33K,
    Baud20K,
    Baud10K,
    Baud5K,
}

/// The bit-timing register value (BTR0 in the high byte, BTR1 in the low
/// byte) by which the driver selects each rate.
pub open spec fn baud_code(b: Baudrate) -> u16 {
    match b {
        Baudrate::Baud1M => 0x0014,
        Baudrate::Baud800K => 0x0016,
        Baudrate::Baud500K => 0x001C,
        Baudrate::Baud250K => 0x011C,
        Baudrate::Baud125K => 0x031C,
        Baudrate::Baud100K => 0x432F,
        Baudrate::Baud95K => 0xC34E,
        Baudrate::Baud83 => 0x852B,
        Baudrate::Baud50K => 0x472F,
        Baudrate::Baud47K => 0x1414,
        Baudrate::Baud33K => 0x8B2F,
        Baudrate::Baud20K => 0x532F,
        Baudrate::Baud10K => 0x672F,
        Baudrate::Baud5K => 0x7F7F,
    }
}

impl From<Baudrate> for u16 {
    fn from(value: Baudrate) -> (r: u16)
        ensures
            r == baud_code(value),
    {
        match value {
            Baudrate::Baud1M => 0x0014,
            Baudrate::Baud800K => 0x0016,
            Baudrate::Baud500K => 0x001C,
            Baudrate::Baud250K => 0x011C,
            Baudrate::Baud125K => 0x031C,
            Baudrate::Baud100K => 0x432F,
            Baudrate::Baud95K => 0xC34E,
            Baudrate::Baud83 => 0x852B,
            Baudrate::Baud50K => 0x472F,
            Baudrate::Baud47K => 0x1414,
            Baudrate::Baud33K => 0x8B2F,
            Baudrate::Baud20K => 0x532F,
            Baudrate::Baud10K => 0x672F,
            Baudrate::Baud5K => 0x7F7F,
        }
    }
}

impl vstd::std_specs::convert::FromSpecImpl<Baudrate> for u16 {
    open spec fn obeys_from_spec() -> bool {
        true
    }

    open spec fn from_spec(v: Baudrate) -> u16 {
        baud_code(v)
    }
}

} // verus!
