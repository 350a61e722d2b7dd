use s32k144evb::csec::{u8_be_array_from_u32, CommandResult};
use s32k144evb::lpuart::{
    find_decent_div, uart_fields, DataBits, Parity, StopBits, UartError, UartSettings,
};
use s32k144evb::pc::{
    Config, DivCore, Error, Mode, Pc, RunMode, SystemOscillatorInput, SystemOscillatorOutput,
};
use s32k144evb::pcc;
use s32k144evb::wdog::{unlock_needed, WatchdogError, WatchdogSettings, WatchdogWindow};

#[test]
fn divisor_for_115200_at_8mhz() {
    // 69 clock cycles per bit: 23 times 3
    assert_eq!(find_decent_div(8_000_000, 115_200).ok(), Some((23, 3)));
}

#[test]
fn divisor_for_9600_at_8mhz() {
    // 833 = 17 * 49
    assert_eq!(find_decent_div(8_000_000, 9_600).ok(), Some((17, 49)));
}

#[test]
fn divisor_falls_back_to_neighbouring_ratio() {
    // 37 is prime and above 32; 38 = 19 * 2
    assert_eq!(find_decent_div(37_000, 1_000).ok(), Some((19, 2)));
}

#[test]
fn divisor_unsatisfiable() {
    assert!(matches!(find_decent_div(8_000_000, 0), Err(UartError::UnsatisfiableBaud)));
    assert!(matches!(find_decent_div(1, 1_000), Err(UartError::UnsatisfiableBaud)));
}

#[test]
fn uart_register_fields() {
    let mut s = UartSettings::default();
    assert_eq!(s.baudrate, 9600);
    assert_eq!(s.data_bits, DataBits::B8);
    assert_eq!(s.stop_bits, StopBits::B1);
    assert_eq!(s.parity, Parity::N);
    s.baudrate = 115_200;
    s.data_bits = DataBits::B10;
    s.parity = Parity::O;
    s.stop_bits = StopBits::B2;
    let f = uart_fields(&s, 8_000_000).unwrap();
    assert_eq!((f.osr, f.sbr, f.bothedge), (22, 3, false));
    assert!(f.m10 && f.sbns && f.pe && f.pt && !f.m7 && !f.m);
    s.baudrate = 2_000_000;
    let f = uart_fields(&s, 8_000_000).unwrap();
    // 4 cycles per bit: oversampling 4, below 8, so both edges
    assert_eq!((f.osr, f.sbr, f.bothedge), (3, 1, true));
}

#[test]
fn clock_configuration() {
    let mut c = Config::default();
    assert_eq!(c.mode, Mode::Run(RunMode::FIRC));
    assert_eq!(c.div_core, DivCore::Div1);
    assert_eq!(c.system_oscillator, SystemOscillatorInput::Disconnected);
    let pc = Pc::init(c).unwrap();
    assert_eq!(pc.core_freq(), 48_000_000);
    assert_eq!(pc.soscdiv1_freq(), None);

    c.mode = Mode::Run(RunMode::SOSC);
    assert_eq!(Pc::init(c).err(), Some(Error::NoSystemOscillator));

    c.system_oscillator = SystemOscillatorInput::Crystal(8_000_000);
    c.soscdiv1 = SystemOscillatorOutput::Div4;
    c.soscdiv2 = SystemOscillatorOutput::Div1;
    c.div_core = DivCore::Div2;
    let pc = Pc::init(c).unwrap();
    assert_eq!(pc.core_freq(), 4_000_000);
    assert_eq!(pc.soscdiv1_freq(), Some(2_000_000));
    assert_eq!(pc.soscdiv2_freq(), Some(8_000_000));
    assert_eq!(SystemOscillatorInput::Reference(12).clock_frequency(), Some(12));
}

#[test]
fn clock_field_values() {
    assert_eq!(u8::from(DivCore::Div16), 15);
    assert_eq!(u32::from(DivCore::Div3), 2);
    assert_eq!(DivCore::Div5.divisor(), 5);
    assert_eq!(u8::from(SystemOscillatorOutput::Div64), 7);
    assert_eq!(usize::from(SystemOscillatorOutput::Div8), 4);
    assert_eq!(isize::from(SystemOscillatorOutput::Disable), 0);
    assert_eq!(SystemOscillatorOutput::default(), SystemOscillatorOutput::Disable);
}

#[test]
fn watchdog_settings_and_unlock_decision() {
    let s = WatchdogSettings::default();
    assert_eq!(s.timeout_value, 0x0400);
    assert!(s.enable);
    assert_eq!(s.window, WatchdogWindow::Disabled);
    assert_eq!(WatchdogWindow::Disabled.register_value(), (0, false));
    assert_eq!(WatchdogWindow::Enabled(0x80).register_value(), (0x80, true));
    assert_eq!(unlock_needed(true, true), Ok(false));
    assert_eq!(unlock_needed(false, true), Err(WatchdogError::ReconfigurationDisallowed));
    assert_eq!(unlock_needed(false, false), Ok(true));
}

#[test]
fn clock_gate_checks() {
    assert_eq!(pcc::enable_check(0), Err(pcc::Error::RegisterNotPresent));
    assert_eq!(pcc::enable_check(0xC000_0000), Err(pcc::Error::AlreadyEnabled));
    assert_eq!(pcc::enable_check(0x8000_0000), Ok(()));
    assert_eq!(u8::from(pcc::ClockSource::Splldiv2), 0b110);
    assert_eq!(u8::from(pcc::ClockSource::Soscdiv2), 0b001);
}

#[test]
fn command_results() {
    assert_eq!(CommandResult::from_u16(0x1), CommandResult::NoError);
    assert_eq!(CommandResult::from_u16(0x800), CommandResult::GeneralError);
    assert_eq!(CommandResult::from_u16(0x100), CommandResult::RngSeed);
    assert!(CommandResult::is_status_bit(0x40));
    assert!(!CommandResult::is_status_bit(0x3));
    assert!(!CommandResult::is_status_bit(0));
    assert_eq!(CommandResult::KeyEmpty.to_u16(), 0x10);
    assert_eq!(u8_be_array_from_u32(0x1234_5678), [0x12, 0x34, 0x56, 0x78]);
}

use s32k144evb::csec::{
    cbc_page_count, cbc_rounds, command_header, halfword_in_page, mac_length_bits, mac_rounds,
    page_with_byte, page_with_halfword, verify_mac_rounds, Command, KeyId, Round, Sequence,
};

fn spans(rounds: &[Round]) -> Vec<(usize, usize, usize)> {
    rounds.iter().map(|r| (r.offset, r.start, r.end)).collect()
}

#[test]
fn cbc_plan() {
    assert_eq!(spans(&cbc_rounds(16).unwrap()), vec![(32, 0, 16)]);
    assert_eq!(spans(&cbc_rounds(0).unwrap()), vec![(32, 0, 0)]);
    let r = cbc_rounds(96 + 112 + 32).unwrap();
    assert_eq!(spans(&r), vec![(32, 0, 96), (16, 96, 208), (16, 208, 240)]);
    assert_eq!(r[0].sequence, Sequence::First);
    assert_eq!(r[2].sequence, Sequence::Subsequent);
    assert_eq!(spans(&cbc_rounds(96).unwrap()), vec![(32, 0, 96)]);
    assert!(cbc_rounds(15).is_err());
    assert!(cbc_rounds(16 * 0x10000).is_err());
    assert_eq!(cbc_page_count(0), 1);
    assert_eq!(cbc_page_count(48), 3);
}

#[test]
fn mac_plans() {
    assert_eq!(spans(&mac_rounds(0)), vec![(16, 0, 0)]);
    assert_eq!(spans(&mac_rounds(200)), vec![(16, 0, 112), (16, 112, 200)]);
    // 31 bytes end in page 3; the MAC goes on page 3
    let v = verify_mac_rounds(31);
    assert_eq!(spans(&v), vec![(16, 0, 31)]);
    assert_eq!(v[0].mac_offset, Some(48));
    // 100 bytes reach page 7: one more round carries the MAC on page 1
    let v = verify_mac_rounds(100);
    assert_eq!(spans(&v), vec![(16, 0, 100), (16, 100, 100)]);
    assert_eq!((v[0].mac_offset, v[1].mac_offset), (None, Some(16)));
    assert_eq!(v[1].sequence, Sequence::Subsequent);
    let v = verify_mac_rounds(112 + 80);
    assert_eq!(spans(&v), vec![(16, 0, 112), (16, 112, 192)]);
    assert_eq!(v[1].mac_offset, Some(96));
    assert_eq!(mac_length_bits(30), Ok(240));
}

#[test]
fn command_words_and_pages() {
    assert_eq!(command_header(Command::VerifyMac, Sequence::Subsequent, KeyId::RamKey), [6, 0, 1, 0xF]);
    assert_eq!(command_header(Command::InitRng, Sequence::First, KeyId::SecretKey), [0x0A, 0, 0, 0]);
    assert!(Command::Rng.is_implemented());
    assert!(!Command::LoadKey.is_implemented());
    let page = [0x12, 0x34, 0x56, 0x78];
    assert_eq!(halfword_in_page(page, 4), 0x1234);
    assert_eq!(halfword_in_page(page, 6), 0x5678);
    assert_eq!(page_with_halfword(page, 8, 0xABCD), [0xAB, 0xCD, 0x56, 0x78]);
    assert_eq!(page_with_halfword(page, 14, 0x0080), [0x12, 0x34, 0x00, 0x80]);
    assert_eq!(page_with_byte(page, 17, 0xFF), [0x12, 0xFF, 0x56, 0x78]);
}
