//! The peripheral clock controller: clock sources and the checks made before
//! a peripheral's clock gate is opened.

use vstd::prelude::*;

verus! {

#[derive(Clone, Copy, Debug, PartialEq, Eq, Structural)]
pub enum Error {
    RegisterNotPresent,
    AlreadyEnabled,
}

/// Clock source
///
/// Is used on the following peripherals
/// - LPSPI
/// - LPIT
/// - FlexIO
/// - LPI2C
/// - LPUART
#[derive(Clone, Copy, Debug, PartialEq, Eq, Structural)]
pub enum ClockSource {
    Off,
    Soscdiv2,
    Sircdiv2,
    Fircdiv2,
    Splldiv2,
}

/// The PCS field value of a clock source.
pub open spec fn source_bits(cs: ClockSource) -> u8 {
    match cs {
        ClockSource::Off => 0b000,
        ClockSource::Soscdiv2 => 0b001,
        ClockSource::Sircdiv2 => 0b010,
        ClockSource::Fircdiv2 => 0b011,
        ClockSource::Splldiv2 => 0b110,
    }
}

impl From<ClockSource> for u8 {
    fn from(cs: ClockSource) -> (r: u8) {
        match cs {
            ClockSource::Off => 0b000,
            ClockSource::Soscdiv2 => 0b001,
            ClockSource::Sircdiv2 => 0b010,
            ClockSource::Fircdiv2 => 0b011,
            ClockSource::Splldiv2 => 0b110,
        }
    }
}

impl vstd::std_specs::convert::FromSpecImpl<ClockSource> for u8 {
    open spec fn obeys_from_spec() -> bool {
        true
    }

    open spec fn from_spec(v: ClockSource) -> u8 {
        source_bits(v)
    }
}

/// The PR (present) bit of a PCC register.
pub const PCC_PR: u32 = 0x8000_0000;

/// The CGC (clock gate control) bit of a PCC register.
pub const PCC_CGC: u32 = 0x4000_0000;

/// Whether a peripheral's clock gate may be opened, from its PCC register:
/// the peripheral must be present and its clock not yet enabled.
pub fn enable_check(register: u32) -> (r: Result<(), Error>)
    ensures
        register & PCC_PR == 0 ==> r == Err::<(), Error>(Error::RegisterNotPresent),
        register & PCC_PR != 0 && register & PCC_CGC != 0 ==> r == Err::<(), Error>(
            Error::AlreadyEnabled,
        ),
        r is Ok <==> (register & PCC_PR != 0 && register & PCC_CGC == 0),
{
    if register & PCC_PR == 0 {
        Err(Error::RegisterNotPresent)
    } else if register & PCC_CGC != 0 {
        Err(Error::AlreadyEnabled)
    } else {
        Ok(())
    }
}

} // verus!
