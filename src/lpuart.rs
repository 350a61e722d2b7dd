//! Settings of the low-power UART and the search for its baud divisor.

use vstd::prelude::*;

verus! {

#[derive(Clone, Copy, Debug, PartialEq, Eq, Structural)]
pub enum UartError {
    UnsatisfiableBaud,
}

#[derive(Clone, Copy, Debug, PartialEq, Eq, Structural)]
pub enum DataBits {
    B7,
    B8,
    B9,
    B10,
}

#[derive(Clone, Copy, Debug, PartialEq, Eq, Structural)]
pub enum StopBits {
    B1,
    B2,
}

#[derive(Clone, Copy, Debug, PartialEq, Eq, Structural)]
pub enum Parity {
    N,
    E,
    O,
}

#[derive(Clone, Copy, Debug, PartialEq, Eq, Structural)]
pub struct UartSettings {
    pub baudrate: u32,
    pub data_bits: DataBits,
    pub parity: Parity,
    pub stop_bits: StopBits,
}

impl Default for UartSettings {
    fn default() -> (r: Self)
        ensures
            r == (UartSettings {
                baudrate: 9600,
                data_bits: DataBits::B8,
                stop_bits: StopBits::B1,
                parity: Parity::N,
            }),
    {
        UartSettings {
            baudrate: 9600,
            data_bits: DataBits::B8,
            stop_bits: StopBits::B1,
            parity: Parity::N,
        }
    }
}

pub const OVERSAMPLING_MIN: u32 = 4;
pub const OVERSAMPLING_MAX: u32 = 32;
pub const DIV_MIN: u32 = 1;
pub const DIV_MAX: u32 = 8191;

/// Clock cycles per bit, rounded to the nearest.
pub open spec fn rounded_ratio(source: u32, baud: u32) -> int {
    (source + baud / 2) / (baud as int)
}

/// The neighbour of the rounded ratio on the other side of the exact ratio.
pub open spec fn alternative_ratio(source: u32, baud: u32) -> int {
    if rounded_ratio(source, baud) == source / baud {
        rounded_ratio(source, baud) + 1
    } else {
        rounded_ratio(source, baud) - 1
    }
}

/// `ratio` is `osr` times a divisor in the legal range.
pub open spec fn splits(ratio: int, osr: int) -> bool {
    &&& ratio % osr == 0
    &&& DIV_MIN <= ratio / osr <= DIV_MAX
}

pub open spec fn has_split(ratio: int) -> bool {
    exists|i: int| OVERSAMPLING_MIN <= i <= OVERSAMPLING_MAX && #[trigger] splits(ratio, i)
}

/// `osr` is the largest legal oversampling ratio that splits `ratio`.
pub open spec fn best_split(ratio: int, osr: int) -> bool {
    &&& OVERSAMPLING_MIN <= osr <= OVERSAMPLING_MAX
    &&& splits(ratio, osr)
    &&& forall|j: int| osr < j <= OVERSAMPLING_MAX ==> !#[trigger] splits(ratio, j)
}

/// The rounded ratio is split with the largest oversampling that divides it;
/// failing that, its neighbour is.
pub open spec fn chosen_split(source: u32, baud: u32, osr: int, div: int) -> bool {
    let r = rounded_ratio(source, baud);
    let a = alternative_ratio(source, baud);
    if has_split(r) {
        best_split(r, osr) && div == r / osr
    } else {
        best_split(a, osr) && div == a / osr
    }
}

pub open spec fn unsatisfiable(source: u32, baud: u32) -> bool {
    baud == 0 || (!has_split(rounded_ratio(source, baud)) && !has_split(
        alternative_ratio(source, baud),
    ))
}

/// The largest legal oversampling ratio that splits `ratio`, if any.
fn largest_split(ratio: u64) -> (r: Option<(u8, u16)>)
    ensures
        r is None <==> !has_split(ratio as int),
        r is Some ==> best_split(ratio as int, r->Some_0.0 as int) && r->Some_0.1 as int == ratio
            / (r->Some_0.0 as u64),
{
    let mut i: u64 = OVERSAMPLING_MAX as u64;
    while i >= OVERSAMPLING_MIN as u64
        invariant
            OVERSAMPLING_MIN - 1 <= i <= OVERSAMPLING_MAX,
            forall|j: int| i < j <= OVERSAMPLING_MAX ==> !#[trigger] splits(ratio as int, j),
        decreases i,
    {
        if ratio % i == 0 && ratio / i >= DIV_MIN as u64 && ratio / i <= DIV_MAX as u64 {
            assert(splits(ratio as int, i as int));
            return Some((i as u8, (ratio / i) as u16));
        }
        i = i - 1;
    }
    assert(!has_split(ratio as int));
    None
}

/// Oversampling ratio and baud divisor for a source clock and a baud rate:
/// the clock cycles per bit, rounded, split as the largest oversampling
/// ratio from 4 to 32 times a divisor from 1 to 8191; failing that, the same
/// for the neighbouring ratio.
pub fn find_decent_div(source: u32, baud: u32) -> (r: Result<(u8, u16), UartError>)
    ensures
        r is Err <==> unsatisfiable(source, baud),
        r is Err ==> r == Err::<(u8, u16), UartError>(UartError::UnsatisfiableBaud),
        r is Ok ==> chosen_split(source, baud, r->Ok_0.0 as int, r->Ok_0.1 as int),
{
    if baud == 0 {
        return Err(UartError::UnsatisfiableBaud);
    }
    let ratio: u64 = (source as u64 + (baud / 2) as u64) / (baud as u64);
    proof {
        vstd::arithmetic::div_mod::lemma_div_is_ordered(
            source as int,
            source + baud / 2,
            baud as int,
        );
    }
    let alternative: u64 = if ratio == (source / baud) as u64 {
        ratio + 1
    } else {
        ratio - 1
    };
    match largest_split(ratio) {
        Some(found) => return Ok(found),
        None => {},
    }
    match largest_split(alternative) {
        Some(found) => Ok(found),
        None => Err(UartError::UnsatisfiableBaud),
    }
}

/// Field values of the BAUD and CTRL registers for a configuration.
#[derive(Clone, Copy, Debug, PartialEq, Eq, Structural)]
pub struct UartFields {
    /// BAUD.M10: ten data bits.
    pub m10: bool,
    /// BAUD.SBNS: two stop bits.
    pub sbns: bool,
    /// BAUD.BOTHEDGE: sample on both edges, needed below eightfold oversampling.
    pub bothedge: bool,
    /// BAUD.OSR: the oversampling ratio minus one.
    pub osr: u8,
    /// BAUD.SBR: the baud divisor.
    pub sbr: u16,
    /// CTRL.M7: seven data bits.
    pub m7: bool,
    /// CTRL.M: nine data bits.
    pub m: bool,
    /// CTRL.PE: parity enabled.
    pub pe: bool,
    /// CTRL.PT: odd parity.
    pub pt: bool,
}

/// The register fields that configure the UART for the settings at the
/// given source clock.
pub fn uart_fields(settings: &UartSettings, source_frequency: u32) -> (r: Result<
    UartFields,
    UartError,
>)
    ensures
        r is Err <==> unsatisfiable(source_frequency, settings.baudrate),
        r is Err ==> r == Err::<UartFields, UartError>(UartError::UnsatisfiableBaud),
        r is Ok ==> ({
            let f = r->Ok_0;
            &&& chosen_split(source_frequency, settings.baudrate, f.osr + 1, f.sbr as int)
            &&& f.bothedge == (f.osr + 1 < 8)
            &&& f.m10 == (settings.data_bits == DataBits::B10)
            &&& f.sbns == (settings.stop_bits == StopBits::B2)
            &&& f.m7 == (settings.data_bits == DataBits::B7)
            &&& f.m == (settings.data_bits == DataBits::B9)
            &&& f.pe == (settings.parity != Parity::N)
            &&& f.pt == (settings.parity == Parity::O)
        }),
{
    let (oversampling, divisor) = match find_decent_div(source_frequency, settings.baudrate) {
        Ok(found) => found,
        Err(e) => return Err(e),
    };
    Ok(
        UartFields {
            m10: settings.data_bits == DataBits::B10,
            sbns: settings.stop_bits == StopBits::B2,
            bothedge: oversampling < 8,
            osr: oversampling - 1,
            sbr: divisor,
            m7: settings.data_bits == DataBits::B7,
            m: settings.data_bits == DataBits::B9,
            pe: settings.parity != Parity::N,
            pt: settings.parity == Parity::O,
        },
    )
}

} // verus!
