use s32k144evb::code::{
    MessageBufferCode, ReceiveBufferCode, ReceiveBufferState, TransmitBufferState,
};
use s32k144evb::frame::{CanFrame, CanIdentifier};
use s32k144evb::mailbox::{
    control_code, id_word, identifier_from_word, mailbox_words, read_mailbox, MailboxHeader,
};
use s32k144evb::timing::compute_bit_timing;
use s32k144evb::can::CanError;

fn all_codes() -> Vec<MessageBufferCode> {
    let mut v = Vec::new();
    for state in [
        ReceiveBufferState::Inactive,
        ReceiveBufferState::Empty,
        ReceiveBufferState::Full,
        ReceiveBufferState::Overrun,
        ReceiveBufferState::Ranswer,
    ] {
        for busy in [false, true] {
            v.push(MessageBufferCode::Receive(ReceiveBufferCode { state, busy }));
        }
    }
    for t in [
        TransmitBufferState::Inactive,
        TransmitBufferState::Abort,
        TransmitBufferState::DataRemote,
        TransmitBufferState::Tanswer,
    ] {
        v.push(MessageBufferCode::Transmit(t));
    }
    v
}

#[test]
fn every_code_round_trips() {
    let codes = all_codes();
    assert_eq!(codes.len(), 14);
    let mut seen = Vec::new();
    for c in codes {
        let bits = c.encode();
        assert!(bits < 16);
        assert_eq!(MessageBufferCode::decode(bits), Some(c));
        assert_eq!(u8::from(c), bits);
        assert!(!seen.contains(&bits));
        seen.push(bits);
    }
}

#[test]
fn code_table() {
    let full_busy = MessageBufferCode::Receive(ReceiveBufferCode { state: ReceiveBufferState::Full, busy: true });
    assert_eq!(full_busy.encode(), 0b0011);
    let ranswer = MessageBufferCode::Receive(ReceiveBufferCode { state: ReceiveBufferState::Ranswer, busy: false });
    assert_eq!(ranswer.encode(), 0b1010);
    assert_eq!(MessageBufferCode::Transmit(TransmitBufferState::Tanswer).encode(), 0b1110);
    assert_eq!(MessageBufferCode::decode(0b1101), None);
    assert_eq!(MessageBufferCode::decode(0b1111), None);
    assert_eq!(MessageBufferCode::decode(16), None);
}

#[test]
fn timing_for_8mhz_clock_at_1mbit() {
    let t = compute_bit_timing(8_000_000, 1_000_000).unwrap();
    assert_eq!(t.presdiv, 0);
    assert_eq!(t.pseg2, 1);
    assert_eq!(t.rjw, 1);
    assert_eq!(t.pseg1, 2);
    assert_eq!(t.propseg, 1);
    assert!(t.pseg2 >= 1 && t.pseg2 <= 7);
    assert!(t.rjw >= 1 && t.rjw <= 3);
    assert_eq!(t.propseg as u32 + t.pseg1 as u32 + t.pseg2 as u32 + 4, 8);
}

#[test]
fn timing_for_80mhz_clock_at_500kbit() {
    let t = compute_bit_timing(80_000_000, 500_000).unwrap();
    assert_eq!((t.presdiv, t.propseg, t.pseg1, t.pseg2, t.rjw), (6, 5, 6, 7, 3));
    assert_eq!(t.propseg as u32 + t.pseg1 as u32 + t.pseg2 as u32 + 4, 22);
}

#[test]
fn timing_segments_sum_to_quanta() {
    for (source, can) in [
        (8_000_000u32, 1_000_000u32),
        (8_000_000, 500_000),
        (8_000_000, 250_000),
        (8_000_000, 125_000),
        (48_000_000, 1_000_000),
        (80_000_000, 1_000_000),
        (40_000_000, 10_000),
        (12_000_000, 1_000_000),
    ] {
        let t = compute_bit_timing(source, can).unwrap();
        let tqs = (source / (t.presdiv as u32 + 1)) / can;
        assert!(tqs >= 8 && tqs < 26);
        assert_eq!(t.propseg as u32 + t.pseg1 as u32 + t.pseg2 as u32 + 4, tqs);
    }
}

#[test]
fn timing_refuses_a_clock_that_is_no_multiple() {
    assert_eq!(compute_bit_timing(8_000_000, 3_000_000), Err(CanError::SettingsError));
    assert_eq!(compute_bit_timing(8_000_001, 1_000_000), Err(CanError::SettingsError));
}

#[test]
fn timing_refuses_other_settings() {
    assert_eq!(compute_bit_timing(8_000_000, 0), Err(CanError::SettingsError));
    assert_eq!(compute_bit_timing(4_000_000, 1_000_000), Err(CanError::SettingsError));
    // a prescaler of 256 does not fit
    assert_eq!(compute_bit_timing(6_400_000, 1_000), Err(CanError::SettingsError));
    assert!(compute_bit_timing(6_399_000, 1_000).is_ok());
}

#[test]
fn extended_identifier_round_trips_at_bounds() {
    for v in [0u32, 0x1FFF_FFFF] {
        let id = CanIdentifier::Extended(v);
        let w = id_word(&id, 0);
        assert_eq!(identifier_from_word(w, true), id);
    }
    assert_eq!(id_word(&CanIdentifier::Extended(0x1FFF_FFFF), 0), 0x1FFF_FFFF);
    assert_eq!(id_word(&CanIdentifier::Extended(0x1FFF_FFFF), 7), 0xFFFF_FFFF);
}

#[test]
fn base_identifier_round_trips() {
    for v in [0u16, 0x123, 0x7FF] {
        let id = CanIdentifier::Base(v);
        let w = id_word(&id, 5);
        assert_eq!(w >> 29, 5);
        assert_eq!(identifier_from_word(w, false), id);
    }
}

#[test]
fn mailbox_words_layout() {
    let mut h = MailboxHeader::default_transmit();
    h.code = MessageBufferCode::Transmit(TransmitBufferState::DataRemote);
    h.error_state_indicator = true;
    h.time_stamp = 0xBEEF;
    h.priority = 3;
    let frame = CanFrame::DataFrame { id: CanIdentifier::Base(0x123), data: vec![0xAA, 0xBB, 0xCC, 0xDD, 0xEE] };
    let w = mailbox_words(&h, &frame);
    assert_eq!(w.control, 0x2000_0000 | 0x0C00_0000 | 0x0040_0000 | 0x0005_0000 | 0xBEEF);
    assert_eq!(control_code(w.control), 0b1100);
    assert_eq!(w.id, (3 << 29) | (0x123 << 18));
    assert_eq!(w.data0, 0xAABB_CCDD);
    assert_eq!(w.data1, 0xEE00_0000);
    let (h2, f2) = read_mailbox(&w);
    assert_eq!(h2, h);
    assert_eq!(f2, frame);
}

#[test]
fn priority_keeps_three_bits() {
    let mut h = MailboxHeader::default_receive();
    h.priority = 0xFF;
    let frame = CanFrame::RemoteFrame { id: CanIdentifier::Base(7) };
    let w = mailbox_words(&h, &frame);
    let (h2, _) = read_mailbox(&w);
    assert_eq!(h2.priority, 7);
    assert_eq!(h2.code, h.code);
}

#[test]
fn frame_queries() {
    let f = CanFrame::DataFrame { id: CanIdentifier::Extended(5), data: vec![1, 2] };
    assert_eq!(f.id(), CanIdentifier::Extended(5));
    assert_eq!(f.data_length(), 2);
    assert!(!f.is_remote());
    assert!(f.is_valid());
    let too_long = CanFrame::DataFrame { id: CanIdentifier::Base(1), data: vec![0; 9] };
    assert!(!too_long.is_valid());
    assert!(!CanIdentifier::Base(0x800).is_valid());
    assert!(!CanIdentifier::Extended(0x2000_0000).is_valid());
    assert_eq!(CanIdentifier::Base(0x7FF).raw(), 0x7FF);
}

#[test]
fn default_headers() {
    let t = MailboxHeader::default_transmit();
    assert_eq!(t.code, MessageBufferCode::Transmit(TransmitBufferState::Inactive));
    assert_eq!((t.error_state_indicator, t.time_stamp, t.priority), (false, 0, 0));
    let r = MailboxHeader::default_receive();
    assert_eq!(
        r.code,
        MessageBufferCode::Receive(ReceiveBufferCode { state: ReceiveBufferState::Empty, busy: false })
    );
}
