use s32k144evb::can::{
    Can, CanError, CanSettings, ClockSource, ReceiveError, RegisterOp, TransmitError,
    MCR_AEN, MCR_CONFIG_MASK, MCR_MDIS, MCR_SRXDIS,
};
use s32k144evb::frame::{CanFrame, CanIdentifier};
use s32k144evb::mailbox::{MailboxHeader, MailboxWords};

const TX_INACTIVE: u32 = 0x0800_0000;
const TX_PENDING: u32 = 0x0C00_0000;

/// A register block as far as the mailbox operations touch it.
struct SimulatedCan {
    ram: Vec<u32>,
    iflag1: u32,
    timer_reads: usize,
}

impl SimulatedCan {
    fn new() -> Self {
        SimulatedCan { ram: vec![0; 128], iflag1: 0, timer_reads: 0 }
    }

    fn perform(&mut self, ops: &[RegisterOp]) {
        for op in ops {
            match *op {
                RegisterOp::ClearFlags(mask) => self.iflag1 &= !mask,
                RegisterOp::WriteWord { index, value } => self.ram[index] = value,
                RegisterOp::ReadTimer => self.timer_reads += 1,
                other => panic!("unexpected access {:?}", other),
            }
        }
    }

    fn control_words(&self, n: usize) -> Vec<u32> {
        (0..n).map(|i| self.ram[4 * i]).collect()
    }

    fn words(&self, mailbox: usize) -> MailboxWords {
        MailboxWords {
            control: self.ram[4 * mailbox],
            id: self.ram[4 * mailbox + 1],
            data0: self.ram[4 * mailbox + 2],
            data1: self.ram[4 * mailbox + 3],
        }
    }
}

fn settings_8mhz() -> CanSettings {
    let mut s = CanSettings::default();
    s.source_frequency = 8_000_000;
    s
}

fn driver(n: usize) -> Can {
    let headers = vec![MailboxHeader::default_transmit(); n];
    Can::init(&settings_8mhz(), &headers).unwrap().0
}

#[test]
fn transmit_into_inactive_mailboxes_then_receive() {
    let n = 4;
    let can = driver(n);
    let mut sim = SimulatedCan::new();
    for i in 0..n {
        sim.ram[4 * i] = TX_INACTIVE;
    }
    sim.iflag1 = 0xF;
    let frame = CanFrame::DataFrame { id: CanIdentifier::Base(0x123), data: vec![1, 2, 3, 4, 5, 6, 7, 8] };
    let ops = can.transmit(&sim.control_words(n), &frame).unwrap();
    assert_eq!(ops[0], RegisterOp::ClearFlags(1));
    assert_eq!(ops.last(), Some(&RegisterOp::WriteWord { index: 0, value: 0x0C48_0000 }));
    sim.perform(&ops);
    assert_eq!(sim.iflag1, 0xE);
    assert_eq!(sim.ram[1], 0x123 << 18);
    assert_eq!(sim.ram[2], 0x0102_0304);
    assert_eq!(sim.ram[3], 0x0506_0708);
    for i in 1..n {
        assert_eq!(sim.ram[4 * i], TX_INACTIVE);
    }

    // the controller completes: the frame comes back into mailbox 0 as received
    sim.ram[0] = (sim.ram[0] & !0x0F00_0000) | 0x0200_0000;
    sim.iflag1 |= 1;
    assert_eq!(can.check_mailbox(0, sim.iflag1), Ok(()));
    let (received, ack) = can.receive(0, sim.iflag1, &sim.words(0)).unwrap();
    assert_eq!(received, frame);
    assert_eq!(ack, vec![RegisterOp::ClearFlags(1), RegisterOp::ReadTimer]);
    sim.perform(&ack);
    assert_eq!(sim.iflag1 & 1, 0);
    assert_eq!(sim.timer_reads, 1);
}

#[test]
fn transmit_picks_first_inactive_mailbox() {
    let can = driver(3);
    let words = vec![TX_PENDING, 0x0400_0000, TX_INACTIVE];
    let frame = CanFrame::RemoteFrame { id: CanIdentifier::Extended(0x1ABC_DEF0) };
    let ops = can.transmit(&words, &frame).unwrap();
    assert_eq!(ops.len(), 5);
    assert_eq!(ops[0], RegisterOp::ClearFlags(1 << 2));
    assert_eq!(ops[1], RegisterOp::WriteWord { index: 9, value: 0x1ABC_DEF0 });
    // pending, remote, extended identifier, no data
    assert_eq!(ops[4], RegisterOp::WriteWord { index: 8, value: 0x0C70_0000 });
}

#[test]
fn transmit_on_pending_mailboxes_is_buffer_full() {
    let n = 5;
    let can = driver(n);
    let frame = CanFrame::DataFrame { id: CanIdentifier::Base(1), data: vec![9] };
    assert_eq!(can.transmit(&vec![TX_PENDING; n], &frame), Err(TransmitError::BufferFull));
}

#[test]
fn transmit_skips_receive_and_reserved_codes() {
    let can = driver(3);
    let frame = CanFrame::DataFrame { id: CanIdentifier::Base(1), data: vec![] };
    let words = vec![0x0400_0000, 0x0D00_0000, 0x0F00_0000];
    assert_eq!(can.transmit(&words, &frame), Err(TransmitError::BufferFull));
}

#[test]
fn receive_with_flag_clear_is_empty_and_touches_nothing() {
    let can = driver(4);
    let sim = SimulatedCan::new();
    assert_eq!(can.check_mailbox(2, sim.iflag1), Err(ReceiveError::MailboxEmpty));
    assert_eq!(can.check_mailbox(2, 0b0011), Err(ReceiveError::MailboxEmpty));
    assert_eq!(can.check_mailbox(2, 0b0100), Ok(()));
    assert_eq!(sim.ram, vec![0; 128]);
}

#[test]
fn receive_beyond_the_controller_does_not_exist() {
    let can = driver(2);
    assert_eq!(can.check_mailbox(32, u32::MAX), Err(ReceiveError::MailboxNonExisting));
    let words = MailboxWords { control: 0x0200_0000, id: 0, data0: 0, data1: 0 };
    assert_eq!(can.receive(32, u32::MAX, &words), Err(ReceiveError::MailboxNonExisting));
}

#[test]
fn clear_flag_is_empty_on_every_mailbox() {
    let can = driver(2);
    let words = MailboxWords { control: 0x0200_0000, id: 0, data0: 0, data1: 0 };
    for mailbox in 0..32 {
        let flags = !(1u32 << mailbox);
        assert_eq!(can.check_mailbox(mailbox, flags), Err(ReceiveError::MailboxEmpty));
        assert_eq!(can.receive(mailbox, flags, &words), Err(ReceiveError::MailboxEmpty));
    }
    // a mailbox past the active ones is read like any other once flagged
    assert!(can.receive(5, 1 << 5, &words).is_ok());
}

#[test]
fn receive_refuses_busy_mailbox() {
    let can = driver(2);
    let busy = MailboxWords { control: 0x0300_0000, id: 0, data0: 0, data1: 0 };
    assert_eq!(can.receive(0, 1, &busy), Err(ReceiveError::MailboxBusy));
}

#[test]
fn receive_remote_and_long_dlc() {
    let can = driver(1);
    let remote = MailboxWords { control: 0x0230_0000, id: 0x1FFF_FFFF, data0: 0, data1: 0 };
    let (f, _) = can.receive(0, 1, &remote).unwrap();
    assert_eq!(f, CanFrame::RemoteFrame { id: CanIdentifier::Extended(0x1FFF_FFFF) });
    // a data length code of 15 stands for eight bytes
    let long = MailboxWords { control: 0x020F_0000, id: 0x7FF << 18, data0: 0x1122_3344, data1: 0x5566_7788 };
    let (f, _) = can.receive(0, 1, &long).unwrap();
    assert_eq!(
        f,
        CanFrame::DataFrame {
            id: CanIdentifier::Base(0x7FF),
            data: vec![0x11, 0x22, 0x33, 0x44, 0x55, 0x66, 0x77, 0x88]
        }
    );
}

#[test]
fn init_refuses_bad_settings() {
    let headers = vec![MailboxHeader::default_receive(); 2];
    let mut s = settings_8mhz();
    s.can_frequency = 3_000_000;
    assert_eq!(Can::init(&s, &headers).err(), Some(CanError::SettingsError));
    s.can_frequency = 0;
    assert_eq!(Can::init(&s, &headers).err(), Some(CanError::SettingsError));
    s.can_frequency = 2_000_000;
    assert_eq!(Can::init(&s, &headers).err(), Some(CanError::SettingsError));
    let s = settings_8mhz();
    assert_eq!(Can::init(&s, &[]).err(), Some(CanError::SettingsError));
    assert_eq!(
        Can::init(&s, &vec![MailboxHeader::default_receive(); 33]).err(),
        Some(CanError::SettingsError)
    );
}

#[test]
fn init_sequence() {
    let headers = vec![MailboxHeader::default_receive(); 3];
    let mut s = settings_8mhz();
    s.self_reception = false;
    s.clock_source = ClockSource::Peripheral;
    let (can, ops) = Can::init(&s, &headers).unwrap();
    assert_eq!(can.active_mailboxes(), 3);
    assert_eq!(ops.len(), 17);
    assert_eq!(ops[0], RegisterOp::ModifyMcr { mask: MCR_MDIS, bits: MCR_MDIS });
    assert_eq!(ops[9], RegisterOp::ModifyCtrl1 { mask: 0x2000, bits: 0x2000 });
    assert_eq!(
        ops[14],
        RegisterOp::ModifyMcr { mask: MCR_CONFIG_MASK, bits: MCR_SRXDIS | MCR_AEN | 2 }
    );
    // presdiv 0, rjw 1, pseg1 2, pseg2 1, propseg 1
    assert_eq!(
        ops[15],
        RegisterOp::ModifyCtrl1 { mask: 0xFFFF_1007, bits: (1 << 22) | (2 << 19) | (1 << 16) | 1 }
    );
    assert_eq!(ops[16], RegisterOp::WriteRxMask(0));
}

#[test]
fn mailbox_setup_sequence() {
    let headers = vec![MailboxHeader::default_transmit(), MailboxHeader::default_receive()];
    let (can, _) = Can::init(&settings_8mhz(), &headers).unwrap();
    let ops = can.configure_mailboxes(&headers, &[TX_PENDING, 0x0200_0000]);
    assert_eq!(ops.len(), 2 * 6 + 2);
    assert_eq!(ops[0], RegisterOp::WriteWord { index: 0, value: TX_INACTIVE });
    assert_eq!(ops[5], RegisterOp::WriteWord { index: 0, value: 0x0860_0000 });
    assert_eq!(ops[6], RegisterOp::WriteWord { index: 4, value: 0 });
    assert_eq!(ops[7], RegisterOp::ClearFlags(2));
    assert_eq!(ops[11], RegisterOp::WriteWord { index: 4, value: 0x0460_0000 });
    assert_eq!(ops[13], RegisterOp::WaitMcr { mask: 0x0100_0000, bits: 0 });
}

#[test]
fn abort_only_pending_mailboxes() {
    let can = driver(2);
    let ops = can.abort_mailbox(1, TX_PENDING);
    assert_eq!(
        ops,
        vec![
            RegisterOp::ClearFlags(2),
            RegisterOp::WriteWord { index: 4, value: 0x0900_0000 },
            RegisterOp::WaitFlags(2)
        ]
    );
    assert!(can.abort_mailbox(1, TX_INACTIVE).is_empty());
    // any of the controller's mailboxes, active or not
    assert_eq!(can.abort_mailbox(2, TX_PENDING).len(), 3);
    assert!(can.abort_mailbox(32, TX_PENDING).is_empty());
}

#[test]
fn settings_defaults_and_clock_bit() {
    let s = CanSettings::default();
    assert!(s.self_reception);
    assert!(!s.loopback_mode);
    assert_eq!(s.can_frequency, 1_000_000);
    assert_eq!(s.source_frequency, 0);
    assert_eq!(s.clock_source, ClockSource::Oscilator);
    assert!(bool::from(ClockSource::Peripheral));
    assert!(!bool::from(ClockSource::Oscilator));
}

#[test]
fn all_mailboxes_with_only_the_last_free() {
    let n = 32;
    let can = driver(n);
    let mut words = vec![TX_PENDING; n];
    words[n - 1] = TX_INACTIVE;
    let frame = CanFrame::DataFrame { id: CanIdentifier::Extended(0x1FFF_FFFF), data: vec![] };
    let ops = can.transmit(&words, &frame).unwrap();
    assert_eq!(ops[0], RegisterOp::ClearFlags(1 << 31));
    assert_eq!(ops[1], RegisterOp::WriteWord { index: 125, value: 0x1FFF_FFFF });
    assert_eq!(ops[2], RegisterOp::WriteWord { index: 126, value: 0 });
    assert_eq!(ops[3], RegisterOp::WriteWord { index: 127, value: 0 });
    // pending, extended, data frame with no bytes
    assert_eq!(ops[4], RegisterOp::WriteWord { index: 124, value: 0x0C60_0000 });
    assert_eq!(can.check_mailbox(31, 1 << 31), Ok(()));
}

#[test]
fn empty_payload_round_trips() {
    let can = driver(1);
    let mut sim = SimulatedCan::new();
    sim.ram[0] = TX_INACTIVE;
    let frame = CanFrame::DataFrame { id: CanIdentifier::Base(0), data: vec![] };
    sim.perform(&can.transmit(&sim.control_words(1), &frame).unwrap());
    sim.ram[0] = (sim.ram[0] & !0x0F00_0000) | 0x0200_0000;
    let (received, _) = can.receive(0, 1, &sim.words(0)).unwrap();
    assert_eq!(received, frame);
}

#[test]
fn mailbox_setup_then_transmit() {
    let headers = vec![MailboxHeader::default_transmit(); 3];
    let (can, _) = Can::init(&settings_8mhz(), &headers).unwrap();
    let mut sim = SimulatedCan::new();
    for w in sim.ram.iter_mut() {
        *w = 0xDEAD_BEEF;
    }
    sim.ram[0] = 0x0400_0000;
    sim.ram[4] = TX_PENDING;
    sim.ram[8] = 0;
    let ops: Vec<RegisterOp> = can
        .configure_mailboxes(&headers, &sim.control_words(3))
        .into_iter()
        .filter(|op| !matches!(op, RegisterOp::ModifyMcr { .. } | RegisterOp::WaitMcr { .. }))
        .collect();
    sim.perform(&ops);
    assert_eq!(sim.control_words(3), vec![0x0860_0000; 3]);
    assert_eq!(sim.ram[12], 0xDEAD_BEEF);
    let frame = CanFrame::DataFrame { id: CanIdentifier::Base(0x42), data: vec![7] };
    let ops = can.transmit(&sim.control_words(3), &frame);
    // the set-up leaves each mailbox with the header's inactive code, so the first is free
    assert_eq!(ops.unwrap()[0], RegisterOp::ClearFlags(1));
}
