//! The FlexCAN controller driver.
//!
//! The driver decides; it does not touch the peripheral. Each operation
//! returns the register accesses to perform, in order, as `RegisterOp`s, and
//! takes what was read from the peripheral as arguments. Whoever owns the
//! register block performs the accesses: the hardware, or a simulation.

use vstd::prelude::*;
use crate::code::{
    MessageBufferCode, ReceiveBufferCode, ReceiveBufferState, TransmitBufferState, code_bits,
    code_of,
};
use crate::frame::{CanFrame, CanIdentifier, FrameView};
use crate::mailbox::{
    MailboxHeader, MailboxWords, control_code, cs_code, cs_dlc, cs_ide, cs_rtr, frame_of_words,
    lemma_mailbox_round_trip, mailbox_words, mailbox_words_of, read_mailbox,
};
use crate::timing::{BitTiming, compute_bit_timing, timing_of, timing_reachable, timing_refused};

verus! {

/// Errors of controller configuration. The driver itself returns only
/// `SettingsError`, before any register is touched.
#[derive(Clone, Copy, Debug, PartialEq, Eq, Structural)]
pub enum CanError {
    FreezeModeError,
    SettingsError,
    ConfigurationFailed,
    BusyMailboxWriteAttempted,
}

/// Errors of a transmission.
#[derive(Clone, Copy, Debug, PartialEq, Eq, Structural)]
pub enum TransmitError {
    /// No active mailbox is free for transmission.
    BufferFull,
}

/// Errors of a reception.
#[derive(Clone, Copy, Debug, PartialEq, Eq, Structural)]
pub enum ReceiveError {
    /// No new frame has arrived in the mailbox.
    MailboxEmpty,
    /// The mailbox holds a CODE that no message buffer code has.
    MailboxConfigurationError,
    /// The mailbox is beyond the configured ones.
    MailboxNonExisting,
    /// The controller kept the mailbox busy through every read.
    MailboxBusy,
}

/// The clock fed to the CAN protocol engine.
#[derive(Clone, Copy, Debug, PartialEq, Eq, Structural)]
pub enum ClockSource {
    Peripheral,
    Oscilator,
}

impl From<ClockSource> for bool {
    /// The CLKSRC bit: set for the peripheral clock.
    fn from(cs: ClockSource) -> (r: bool) {
        match cs {
            ClockSource::Peripheral => true,
            ClockSource::Oscilator => false,
        }
    }
}

impl vstd::std_specs::convert::FromSpecImpl<ClockSource> for bool {
    open spec fn obeys_from_spec() -> bool {
        true
    }

    open spec fn from_spec(v: ClockSource) -> bool {
        v is Peripheral
    }
}

/// Controller settings.
#[derive(Clone, Copy, Debug, PartialEq, Eq, Structural)]
pub struct CanSettings {
    /// When asserted, this bit enables the generation of the TWRNINT and RWRNINT flags in the Error and
    /// Status Register 1 (ESR1). If WRNEN is negated, the TWRNINT and RWRNINT flags will always be zero,
    /// independent of the values of the error counters, and no warning interrupt will ever be generated. This bit
    /// can be written in Freeze mode only because it is blocked by hardware in other modes.
    pub warning_interrupt: bool,
    /// This bit defines whether FlexCAN is allowed to receive frames transmitted by itself. If this bit is asserted,
    /// frames transmitted by the module will not be stored in any MB, regardless if the MB is programmed with
    /// an ID that matches the transmitted frame, and no interrupt flag or interrupt signal will be generated due to
    /// the frame reception.
    pub self_reception: bool,
    /// This bit indicates whether Rx matching process will be based either on individual masking and queue or
    /// on masking scheme with CAN_RXMGMASK, CAN_RX14MASK, CAN_RX15MASK and
    /// CAN_RXFGMASK.
    pub individual_masking: bool,
    /// This bit configures FlexCAN to operate in Loop-Back mode. In this mode, FlexCAN performs an internal
    /// loop back that can be used for self test operation. The bit stream output of the transmitter is fed back
    /// internally to the receiver input. The Rx CAN input pin is ignored and the Tx CAN output goes to the
    /// recessive state (logic 1). FlexCAN behaves as it normally does when transmitting, and treats its own
    /// transmitted message as a message received from a remote node.
    pub loopback_mode: bool,
    /// This bit selects the clock source to the CAN Protocol Engine (PE) to be either the peripheral clock or the
    /// oscillator clock. The selected clock is the one fed to the prescaler to generate the Serial Clock (Sclock).
    pub clock_source: ClockSource,
    /// Frequency of the selected clock, in Hz.
    pub source_frequency: u32,
    /// Bit rate of the bus, in bit/s.
    pub can_frequency: u32,
}

impl Default for CanSettings {
    fn default() -> (r: Self)
        ensures
            r == (CanSettings {
                warning_interrupt: false,
                self_reception: true,
                individual_masking: false,
                loopback_mode: false,
                can_frequency: 1000000,
                clock_source: ClockSource::Oscilator,
                source_frequency: 0,
            }),
    {
        CanSettings {
            warning_interrupt: false,
            self_reception: true,
            individual_masking: false,
            loopback_mode: false,
            can_frequency: 1000000,
            clock_source: ClockSource::Oscilator,
            source_frequency: 0,
        }
    }
}

/// One access to the FlexCAN register block.
#[derive(Clone, Copy, Debug, PartialEq, Eq, Structural)]
pub enum RegisterOp {
    /// Read-modify-write of MCR: the bits under `mask` take their values from `bits`.
    ModifyMcr { mask: u32, bits: u32 },
    /// Read-modify-write of CTRL1: the bits under `mask` take their values from `bits`.
    ModifyCtrl1 { mask: u32, bits: u32 },
    /// Poll MCR until the bits under `mask` equal `bits`.
    WaitMcr { mask: u32, bits: u32 },
    /// Write RXMGMASK.
    WriteRxMask(u32),
    /// Write ones to IFLAG1, which clears the flags under the mask.
    ClearFlags(u32),
    /// Poll IFLAG1 until every flag under the mask is set.
    WaitFlags(u32),
    /// Write a word of the message buffer memory.
    WriteWord { index: usize, value: u32 },
    /// Read the free-running timer, which releases the lock on a mailbox.
    ReadTimer,
}

/// Number of message buffers of the controller.
pub const MAILBOX_COUNT: usize = 32;

pub const MCR_MDIS: u32 = 0x8000_0000;
pub const MCR_FRZ: u32 = 0x4000_0000;
pub const MCR_RFEN: u32 = 0x2000_0000;
pub const MCR_HALT: u32 = 0x1000_0000;
pub const MCR_SOFTRST: u32 = 0x0200_0000;
pub const MCR_FRZACK: u32 = 0x0100_0000;
pub const MCR_LPMACK: u32 = 0x0010_0000;
pub const MCR_SRXDIS: u32 = 0x0002_0000;
pub const MCR_IRMQ: u32 = 0x0001_0000;
pub const MCR_DMA: u32 = 0x0000_8000;
pub const MCR_AEN: u32 = 0x0000_1000;
pub const MCR_MAXMB: u32 = 0x0000_007F;

pub const CTRL1_PRESDIV: u32 = 0xFF00_0000;
pub const CTRL1_RJW: u32 = 0x00C0_0000;
pub const CTRL1_PSEG1: u32 = 0x0038_0000;
pub const CTRL1_PSEG2: u32 = 0x0007_0000;
pub const CTRL1_CLKSRC: u32 = 0x0000_2000;
pub const CTRL1_LPB: u32 = 0x0000_1000;
pub const CTRL1_PROPSEG: u32 = 0x0000_0007;

/// The fields of MCR that the configuration writes.
pub const MCR_CONFIG_MASK: u32 = MCR_RFEN | MCR_SRXDIS | MCR_IRMQ | MCR_AEN | MCR_DMA | MCR_MAXMB;

/// The fields of CTRL1 that the bit timing and loop-back mode occupy.
pub const CTRL1_TIMING_MASK: u32 = CTRL1_PRESDIV | CTRL1_RJW | CTRL1_PSEG1 | CTRL1_PSEG2
    | CTRL1_LPB | CTRL1_PROPSEG;

pub open spec fn bit_if(b: bool, bit: u32) -> u32 {
    if b {
        bit
    } else {
        0
    }
}

/// Disable the module, select a clock while disabled, soft-reset it, and leave
/// it disabled: the clock source only takes effect through a soft reset.
pub open spec fn reset_ops() -> Seq<RegisterOp> {
    seq![
        RegisterOp::ModifyMcr { mask: MCR_MDIS, bits: MCR_MDIS },
        RegisterOp::WaitMcr { mask: MCR_LPMACK, bits: MCR_LPMACK },
        RegisterOp::ModifyCtrl1 { mask: CTRL1_CLKSRC, bits: CTRL1_CLKSRC },
        RegisterOp::ModifyMcr { mask: MCR_MDIS, bits: 0 },
        RegisterOp::WaitMcr { mask: MCR_LPMACK, bits: 0 },
        RegisterOp::ModifyMcr { mask: MCR_SOFTRST, bits: MCR_SOFTRST },
        RegisterOp::WaitMcr { mask: MCR_SOFTRST, bits: 0 },
        RegisterOp::ModifyMcr { mask: MCR_MDIS, bits: MCR_MDIS },
        RegisterOp::WaitMcr { mask: MCR_LPMACK, bits: MCR_LPMACK },
    ]
}

/// Select the protocol engine clock; only allowed while the module is disabled.
pub open spec fn clock_ops(source: ClockSource) -> Seq<RegisterOp> {
    seq![
        RegisterOp::ModifyCtrl1 {
            mask: CTRL1_CLKSRC,
            bits: bit_if(source is Peripheral, CTRL1_CLKSRC),
        },
    ]
}

/// Clear the module disable bit and wait until low-power mode is left.
pub open spec fn enable_ops() -> Seq<RegisterOp> {
    seq![
        RegisterOp::ModifyMcr { mask: MCR_MDIS, bits: 0 },
        RegisterOp::WaitMcr { mask: MCR_LPMACK, bits: 0 },
    ]
}

/// Request freeze mode and wait for its acknowledgement.
pub open spec fn enter_freeze_ops() -> Seq<RegisterOp> {
    seq![
        RegisterOp::ModifyMcr { mask: MCR_FRZ | MCR_HALT, bits: MCR_FRZ | MCR_HALT },
        RegisterOp::WaitMcr { mask: MCR_FRZACK, bits: MCR_FRZACK },
    ]
}

/// Leave freeze mode and wait until the controller runs.
pub open spec fn leave_freeze_ops() -> Seq<RegisterOp> {
    seq![
        RegisterOp::ModifyMcr { mask: MCR_FRZ | MCR_HALT, bits: 0 },
        RegisterOp::WaitMcr { mask: MCR_FRZACK, bits: 0 },
    ]
}

/// MCR configuration: no receive FIFO and no DMA, self reception and
/// individual masking as set, abort enabled, and the index of the last
/// active mailbox.
pub open spec fn mcr_config_bits(settings: CanSettings, mailboxes: nat) -> u32 {
    bit_if(!settings.self_reception, MCR_SRXDIS) | bit_if(settings.individual_masking, MCR_IRMQ)
        | MCR_AEN | (mailboxes - 1) as u32
}

/// CTRL1 configuration: the bit timing fields and loop-back mode.
pub open spec fn ctrl1_timing_bits(t: BitTiming, loopback: bool) -> u32 {
    ((t.presdiv as u32) << 24u32) | ((t.rjw as u32) << 22u32) | ((t.pseg1 as u32) << 19u32) | ((
    t.pseg2 as u32) << 16u32) | bit_if(loopback, CTRL1_LPB) | (t.propseg as u32)
}

/// Global configuration in freeze mode; the receive mask accepts every frame.
pub open spec fn configure_ops(settings: CanSettings, t: BitTiming, mailboxes: nat) -> Seq<
    RegisterOp,
> {
    seq![
        RegisterOp::ModifyMcr { mask: MCR_CONFIG_MASK, bits: mcr_config_bits(settings, mailboxes) },
        RegisterOp::ModifyCtrl1 {
            mask: CTRL1_TIMING_MASK,
            bits: ctrl1_timing_bits(t, settings.loopback_mode),
        },
        RegisterOp::WriteRxMask(0),
    ]
}

/// Everything `init` has performed before the mailboxes are set up: the
/// controller is then frozen and configured.
pub open spec fn start_ops(settings: CanSettings, t: BitTiming, mailboxes: nat) -> Seq<
    RegisterOp,
> {
    reset_ops() + clock_ops(settings.clock_source) + enable_ops() + enter_freeze_ops()
        + configure_ops(settings, t, mailboxes)
}

/// The flag of a mailbox in IFLAG1.
pub open spec fn flag_mask(mailbox: int) -> u32 {
    1u32 << (mailbox as u32)
}

/// The control word that inactivates a mailbox, keeping its direction.
pub open spec fn inactive_word(control: u32) -> u32 {
    match code_of(cs_code(control) as u8) {
        Some(MessageBufferCode::Transmit(_)) => (code_bits(
            MessageBufferCode::Transmit(TransmitBufferState::Inactive),
        ) as u32) << 24u32,
        _ => 0,
    }
}

/// Write a mailbox: clear its flag, then the identifier and data words, and
/// the control word last, which arms it.
pub open spec fn write_ops(mailbox: int, w: MailboxWords) -> Seq<RegisterOp> {
    seq![
        RegisterOp::ClearFlags(flag_mask(mailbox)),
        RegisterOp::WriteWord { index: (4 * mailbox + 1) as usize, value: w.id },
        RegisterOp::WriteWord { index: (4 * mailbox + 2) as usize, value: w.data0 },
        RegisterOp::WriteWord { index: (4 * mailbox + 3) as usize, value: w.data1 },
        RegisterOp::WriteWord { index: (4 * mailbox) as usize, value: w.control },
    ]
}

/// The frame written into every mailbox at set-up: an extended data frame
/// with identifier 0 and no payload.
pub open spec fn filter_frame() -> FrameView {
    FrameView::Data { id: CanIdentifier::Extended(0), data: Seq::empty() }
}

/// Set up one mailbox: inactivate it, then write its header with the filter frame.
pub open spec fn setup_ops(mailbox: int, header: MailboxHeader, control: u32) -> Seq<RegisterOp> {
    seq![RegisterOp::WriteWord { index: (4 * mailbox) as usize, value: inactive_word(control) }]
        + write_ops(mailbox, mailbox_words_of(header, filter_frame()))
}

/// Set-up of the first `n` mailboxes, in order.
pub open spec fn setup_all_ops(headers: Seq<MailboxHeader>, controls: Seq<u32>, n: nat) -> Seq<
    RegisterOp,
>
    decreases n,
{
    if n == 0 {
        Seq::empty()
    } else {
        setup_all_ops(headers, controls, (n - 1) as nat) + setup_ops(
            n - 1,
            headers[n - 1],
            controls[n - 1],
        )
    }
}

/// A mailbox may be written: its CODE is inactive (transmit or receive,
/// busy or not) or aborted.
pub open spec fn writable(control: u32) -> bool {
    match code_of(cs_code(control) as u8) {
        Some(MessageBufferCode::Transmit(t)) => t == TransmitBufferState::Inactive || t
            == TransmitBufferState::Abort,
        Some(MessageBufferCode::Receive(r)) => r.state == ReceiveBufferState::Inactive,
        None => false,
    }
}

proof fn lemma_inactive_words_writable(control: u32)
    ensures
        writable(inactive_word(control)),
        code_of(cs_code(inactive_word(control)) as u8) is Some,
{
    assert(cs_code(8u32 << 24u32) == 8 && cs_code(0u32) == 0) by (bit_vector);
    assert(code_bits(MessageBufferCode::Transmit(TransmitBufferState::Inactive)) as u32 == 8u32);
}

/// The header under which frames are transmitted.
pub open spec fn transmit_header() -> MailboxHeader {
    MailboxHeader {
        error_state_indicator: false,
        code: MessageBufferCode::Transmit(TransmitBufferState::DataRemote),
        time_stamp: 0,
        priority: 0,
    }
}

/// A control word whose CODE is the inactive transmit code.
pub open spec fn free_for_transmit(control: u32) -> bool {
    code_of(cs_code(control) as u8) == Some(MessageBufferCode::Transmit(TransmitBufferState::Inactive))
}

/// The control word's CODE is a receive code with the busy flag set.
pub open spec fn busy(control: u32) -> bool {
    match code_of(cs_code(control) as u8) {
        Some(MessageBufferCode::Receive(r)) => r.busy,
        _ => false,
    }
}

/// The first free mailbox among the given control words.
pub open spec fn first_free(controls: Seq<u32>, k: int) -> bool {
    &&& 0 <= k < controls.len()
    &&& free_for_transmit(controls[k])
    &&& forall|j: int| 0 <= j < k ==> !free_for_transmit(#[trigger] controls[j])
}

/// Acknowledge a received frame and release the mailbox lock.
pub open spec fn acknowledge_ops(mailbox: int) -> Seq<RegisterOp> {
    seq![RegisterOp::ClearFlags(flag_mask(mailbox)), RegisterOp::ReadTimer]
}

/// Request an abort of a pending transmission and wait for the flag that
/// tells it is over, whether by abort or by transmission.
pub open spec fn abort_ops(mailbox: int) -> Seq<RegisterOp> {
    seq![
        RegisterOp::ClearFlags(flag_mask(mailbox)),
        RegisterOp::WriteWord {
            index: (4 * mailbox) as usize,
            value: (code_bits(MessageBufferCode::Transmit(TransmitBufferState::Abort)) as u32)
                << 24u32,
        },
        RegisterOp::WaitFlags(flag_mask(mailbox)),
    ]
}

fn reset(ops: &mut Vec<RegisterOp>)
    ensures
        final(ops)@ == old(ops)@ + reset_ops(),
{
    ops.push(RegisterOp::ModifyMcr { mask: MCR_MDIS, bits: MCR_MDIS });
    ops.push(RegisterOp::WaitMcr { mask: MCR_LPMACK, bits: MCR_LPMACK });
    ops.push(RegisterOp::ModifyCtrl1 { mask: CTRL1_CLKSRC, bits: CTRL1_CLKSRC });
    ops.push(RegisterOp::ModifyMcr { mask: MCR_MDIS, bits: 0 });
    ops.push(RegisterOp::WaitMcr { mask: MCR_LPMACK, bits: 0 });
    ops.push(RegisterOp::ModifyMcr { mask: MCR_SOFTRST, bits: MCR_SOFTRST });
    ops.push(RegisterOp::WaitMcr { mask: MCR_SOFTRST, bits: 0 });
    ops.push(RegisterOp::ModifyMcr { mask: MCR_MDIS, bits: MCR_MDIS });
    ops.push(RegisterOp::WaitMcr { mask: MCR_LPMACK, bits: MCR_LPMACK });
    assert(final(ops)@ =~= old(ops)@ + reset_ops());
}

fn enable(ops: &mut Vec<RegisterOp>)
    ensures
        final(ops)@ == old(ops)@ + enable_ops(),
{
    ops.push(RegisterOp::ModifyMcr { mask: MCR_MDIS, bits: 0 });
    ops.push(RegisterOp::WaitMcr { mask: MCR_LPMACK, bits: 0 });
    assert(final(ops)@ =~= old(ops)@ + enable_ops());
}

fn enter_freeze(ops: &mut Vec<RegisterOp>)
    ensures
        final(ops)@ == old(ops)@ + enter_freeze_ops(),
{
    ops.push(RegisterOp::ModifyMcr { mask: MCR_FRZ | MCR_HALT, bits: MCR_FRZ | MCR_HALT });
    ops.push(RegisterOp::WaitMcr { mask: MCR_FRZACK, bits: MCR_FRZACK });
    assert(final(ops)@ =~= old(ops)@ + enter_freeze_ops());
}

fn leave_freeze(ops: &mut Vec<RegisterOp>)
    ensures
        final(ops)@ == old(ops)@ + leave_freeze_ops(),
{
    ops.push(RegisterOp::ModifyMcr { mask: MCR_FRZ | MCR_HALT, bits: 0 });
    ops.push(RegisterOp::WaitMcr { mask: MCR_FRZACK, bits: 0 });
    assert(final(ops)@ =~= old(ops)@ + leave_freeze_ops());
}

fn flag_of(mailbox: usize) -> (r: u32)
    requires
        mailbox < MAILBOX_COUNT,
    ensures
        r == flag_mask(mailbox as int),
{
    1u32 << (mailbox as u32)
}

fn inactivate_mailbox(ops: &mut Vec<RegisterOp>, mailbox: usize, control: u32) -> (r: u32)
    requires
        mailbox < MAILBOX_COUNT,
    ensures
        r == inactive_word(control),
        final(ops)@ == old(ops)@.push(
            RegisterOp::WriteWord { index: (4 * mailbox) as usize, value: inactive_word(control) },
        ),
{
    let value: u32 = match MessageBufferCode::decode(control_code(control)) {
        Some(MessageBufferCode::Transmit(_)) => (MessageBufferCode::Transmit(
            TransmitBufferState::Inactive,
        ).encode() as u32) << 24,
        _ => 0,
    };
    ops.push(RegisterOp::WriteWord { index: 4 * mailbox, value });
    value
}

/// Writes a header and a frame into a mailbox whose current control word is
/// given. A mailbox that is pending, full, empty, overrun or answering a
/// remote request is refused and left alone.
fn write_mailbox(
    ops: &mut Vec<RegisterOp>,
    header: &MailboxHeader,
    frame: &CanFrame,
    mailbox: usize,
    control: u32,
) -> (r: Result<(), CanError>)
    requires
        mailbox < MAILBOX_COUNT,
        frame@.wf(),
        code_of(cs_code(control) as u8) is Some,
    ensures
        r is Ok <==> writable(control),
        r is Ok ==> final(ops)@ == old(ops)@ + write_ops(
            mailbox as int,
            mailbox_words_of(*header, frame@),
        ),
        r is Err ==> r == Err::<(), CanError>(CanError::BusyMailboxWriteAttempted) && final(ops)@
            == old(ops)@,
{
    match MessageBufferCode::decode(control_code(control)) {
        Some(MessageBufferCode::Transmit(TransmitBufferState::Inactive)) => {},
        Some(MessageBufferCode::Transmit(TransmitBufferState::Abort)) => {},
        Some(MessageBufferCode::Receive(r)) => {
            if r.state != ReceiveBufferState::Inactive {
                return Err(CanError::BusyMailboxWriteAttempted);
            }
        },
        _ => return Err(CanError::BusyMailboxWriteAttempted),
    }
    let w = mailbox_words(header, frame);
    ops.push(RegisterOp::ClearFlags(flag_of(mailbox)));
    ops.push(RegisterOp::WriteWord { index: 4 * mailbox + 1, value: w.id });
    ops.push(RegisterOp::WriteWord { index: 4 * mailbox + 2, value: w.data0 });
    ops.push(RegisterOp::WriteWord { index: 4 * mailbox + 3, value: w.data1 });
    ops.push(RegisterOp::WriteWord { index: 4 * mailbox, value: w.control });
    assert(final(ops)@ =~= old(ops)@ + write_ops(mailbox as int, mailbox_words_of(*header, frame@)));
    Ok(())
}

/// Whether a mailbox with this control word is being updated by the
/// controller and must be read again.
pub fn mailbox_busy(control: u32) -> (r: bool)
    ensures
        r == busy(control),
{
    match MessageBufferCode::decode(control_code(control)) {
        Some(MessageBufferCode::Receive(r)) => r.busy,
        _ => false,
    }
}

/// Whether the CODE of every control word is decodable, as
/// `configure_mailboxes` needs.
pub fn codes_decodable(control_words: &[u32]) -> (r: bool)
    ensures
        r == forall|i: int|
            0 <= i < control_words@.len() ==> (code_of(
                cs_code(#[trigger] control_words@[i]) as u8,
            ) is Some),
{
    let mut i: usize = 0;
    while i < control_words.len()
        invariant
            i <= control_words@.len(),
            forall|j: int|
                0 <= j < i ==> (code_of(cs_code(#[trigger] control_words@[j]) as u8) is Some),
        decreases control_words.len() - i,
    {
        if MessageBufferCode::decode(control_code(control_words[i])).is_none() {
            return false;
        }
        i = i + 1;
    }
    true
}

/// How many times IFLAG1 is polled for the flag that ends an abort before
/// the wait gives up.
pub const FLAG_WAIT_LIMIT: usize = 1_000_000;

/// How many times a busy mailbox is read before the reception gives up.
pub const BUSY_READ_LIMIT: usize = 1000;

/// The driver of a configured controller. Only `init` makes one.
pub struct Can {
    mailboxes: usize,
    timing: BitTiming,
}

impl Can {
    /// Number of active mailboxes.
    pub closed spec fn mailbox_count(&self) -> nat {
        self.mailboxes as nat
    }

    /// The bit timing in use.
    pub closed spec fn bit_timing(&self) -> BitTiming {
        self.timing
    }

    pub closed spec fn wf(&self) -> bool {
        1 <= self.mailboxes <= MAILBOX_COUNT
    }

    /// A driver made by `init` has one to `MAILBOX_COUNT` active mailboxes.
    pub proof fn lemma_mailbox_count_bounds(&self)
        requires
            self.wf(),
        ensures
            1 <= self.mailbox_count() <= MAILBOX_COUNT,
    {
    }

    pub fn active_mailboxes(&self) -> (r: usize)
        ensures
            r == self.mailbox_count(),
    {
        self.mailboxes
    }

    pub fn timing(&self) -> (r: BitTiming)
        ensures
            r == self.bit_timing(),
    {
        self.timing
    }

    /// Validates the settings, derives the bit timing and returns the
    /// accesses that reset the controller, select its clock, enable and
    /// freeze it and write its global configuration. One mailbox is
    /// activated for each header, so there must be one to `MAILBOX_COUNT`
    /// of them. Nothing is to be performed when the settings are refused.
    /// `configure_mailboxes` then finishes the start-up.
    pub fn init(settings: &CanSettings, message_buffer_settings: &[MailboxHeader]) -> (r: Result<
        (Can, Vec<RegisterOp>),
        CanError,
    >)
        requires
            timing_reachable(settings.source_frequency, settings.can_frequency),
        ensures
            r is Err <==> (timing_refused(settings.source_frequency, settings.can_frequency)
                || message_buffer_settings@.len() == 0 || message_buffer_settings@.len()
                > MAILBOX_COUNT),
            r is Err ==> r == Err::<(Can, Vec<RegisterOp>), CanError>(CanError::SettingsError),
            r is Ok ==> ({
                let (can, ops) = r->Ok_0;
                &&& can.wf()
                &&& can.mailbox_count() == message_buffer_settings@.len()
                &&& can.bit_timing() == timing_of(settings.source_frequency, settings.can_frequency)
                &&& ops@ == start_ops(*settings, can.bit_timing(), can.mailbox_count())
            }),
    {
        let timing = match compute_bit_timing(settings.source_frequency, settings.can_frequency) {
            Ok(t) => t,
            Err(e) => return Err(e),
        };
        let count = message_buffer_settings.len();
        if count == 0 || count > MAILBOX_COUNT {
            return Err(CanError::SettingsError);
        }
        let mut ops: Vec<RegisterOp> = Vec::new();
        reset(&mut ops);
        let clock: bool = settings.clock_source.into();
        ops.push(
            RegisterOp::ModifyCtrl1 {
                mask: CTRL1_CLKSRC,
                bits: if clock {
                    CTRL1_CLKSRC
                } else {
                    0
                },
            },
        );
        enable(&mut ops);
        enter_freeze(&mut ops);
        let mcr: u32 = (if settings.self_reception {
            0
        } else {
            MCR_SRXDIS
        }) | (if settings.individual_masking {
            MCR_IRMQ
        } else {
            0
        }) | MCR_AEN | (count - 1) as u32;
        ops.push(RegisterOp::ModifyMcr { mask: MCR_CONFIG_MASK, bits: mcr });
        let ctrl1: u32 = ((timing.presdiv as u32) << 24) | ((timing.rjw as u32) << 22) | ((
        timing.pseg1 as u32) << 19) | ((timing.pseg2 as u32) << 16) | (if settings.loopback_mode {
            CTRL1_LPB
        } else {
            0
        }) | (timing.propseg as u32);
        ops.push(RegisterOp::ModifyCtrl1 { mask: CTRL1_TIMING_MASK, bits: ctrl1 });
        ops.push(RegisterOp::WriteRxMask(0));
        let can = Can { mailboxes: count, timing };
        assert(ops@ =~= start_ops(*settings, can.bit_timing(), can.mailbox_count()));
        Ok((can, ops))
    }

    /// The accesses that set up every active mailbox from its header and then
    /// leave freeze mode. `control_words` holds the control word read from
    /// each active mailbox after `init`'s accesses; the CODE of each must be
    /// decodable.
    pub fn configure_mailboxes(&self, message_buffer_settings: &[MailboxHeader], control_words: &[u32]) -> (r: Vec<RegisterOp>)
        requires
            self.wf(),
            message_buffer_settings@.len() == self.mailbox_count(),
            control_words@.len() == self.mailbox_count(),
            forall|i: int|
                0 <= i < control_words@.len() ==> (code_of(
                    cs_code(#[trigger] control_words@[i]) as u8,
                ) is Some),
        ensures
            r@ == setup_all_ops(
                message_buffer_settings@,
                control_words@,
                self.mailbox_count(),
            ) + leave_freeze_ops(),
    {
        let filter = CanFrame::DataFrame { id: CanIdentifier::Extended(0), data: Vec::new() };
        assert(filter@.payload() =~= filter_frame().payload());
        assert(filter@ == filter_frame());
        let mut ops: Vec<RegisterOp> = Vec::new();
        let mut mb: usize = 0;
        while mb < self.mailboxes
            invariant
                self.wf(),
                mb <= self.mailboxes,
                message_buffer_settings@.len() == self.mailboxes,
                control_words@.len() == self.mailboxes,
                filter@ == filter_frame(),
                ops@ == setup_all_ops(message_buffer_settings@, control_words@, mb as nat),
            decreases self.mailboxes - mb,
        {
            let inactive = inactivate_mailbox(&mut ops, mb, control_words[mb]);
            proof {
                lemma_inactive_words_writable(control_words@[mb as int]);
            }
            let written = write_mailbox(&mut ops, &message_buffer_settings[mb], &filter, mb, inactive);
            assert(written is Ok);
            assert(ops@ =~= setup_all_ops(
                message_buffer_settings@,
                control_words@,
                (mb + 1) as nat,
            ));
            mb = mb + 1;
        }
        leave_freeze(&mut ops);
        ops
    }

    /// Puts a frame into the first active mailbox that is free for
    /// transmission, and arms it. `control_words` holds the control word read
    /// from each active mailbox. Mailboxes that are pending, receiving or
    /// hold any other CODE are skipped; with none free the result is
    /// `BufferFull`, and nothing is to be performed.
    pub fn transmit(&self, control_words: &[u32], frame: &CanFrame) -> (r: Result<
        Vec<RegisterOp>,
        TransmitError,
    >)
        requires
            self.wf(),
            control_words@.len() == self.mailbox_count(),
            frame@.wf(),
        ensures
            r is Err <==> forall|i: int|
                0 <= i < control_words@.len() ==> !free_for_transmit(#[trigger] control_words@[i]),
            r is Err ==> r == Err::<Vec<RegisterOp>, TransmitError>(TransmitError::BufferFull),
            r is Ok ==> exists|k: int|
                first_free(control_words@, k) && r->Ok_0@ == write_ops(
                    k,
                    mailbox_words_of(transmit_header(), frame@),
                ),
    {
        let mut header = MailboxHeader::default_transmit();
        header.code = MessageBufferCode::Transmit(TransmitBufferState::DataRemote);
        let mut i: usize = 0;
        while i < control_words.len()
            invariant
                self.wf(),
                control_words@.len() == self.mailboxes,
                i <= control_words@.len(),
                header == transmit_header(),
                frame@.wf(),
                forall|j: int| 0 <= j < i ==> !free_for_transmit(#[trigger] control_words@[j]),
            decreases control_words.len() - i,
        {
            let code = MessageBufferCode::decode(control_code(control_words[i]));
            if code == Some(MessageBufferCode::Transmit(TransmitBufferState::Inactive)) {
                let mut ops: Vec<RegisterOp> = Vec::new();
                let written = write_mailbox(&mut ops, &header, frame, i, control_words[i]);
                assert(written is Ok);
                assert(ops@ =~= write_ops(i as int, mailbox_words_of(transmit_header(), frame@)));
                assert(first_free(control_words@, i as int));
                return Ok(ops);
            }
            i = i + 1;
        }
        Err(TransmitError::BufferFull)
    }

    /// Whether a new frame waits in a mailbox, from the value of IFLAG1.
    /// Nothing is to be performed, and the mailbox is not to be read, unless
    /// the result is `Ok`.
    pub fn check_mailbox(&self, mailbox: usize, flags: u32) -> (r: Result<(), ReceiveError>)
        ensures
            mailbox >= MAILBOX_COUNT ==> r == Err::<(), ReceiveError>(
                ReceiveError::MailboxNonExisting,
            ),
            mailbox < MAILBOX_COUNT ==> (r is Ok <==> flags & flag_mask(mailbox as int) != 0),
            mailbox < MAILBOX_COUNT && flags & flag_mask(mailbox as int) == 0 ==> r == Err::<
                (),
                ReceiveError,
            >(ReceiveError::MailboxEmpty),
    {
        if mailbox >= MAILBOX_COUNT {
            return Err(ReceiveError::MailboxNonExisting);
        }
        if flags & flag_of(mailbox) == 0 {
            Err(ReceiveError::MailboxEmpty)
        } else {
            Ok(())
        }
    }

    /// Takes the frame out of a mailbox, given the value of IFLAG1 and the
    /// mailbox's four words as read, after the flag was found set, once its
    /// control word was no longer busy. With the flag clear the result is
    /// `MailboxEmpty` and nothing is to be performed. Otherwise returns the
    /// frame and the accesses that acknowledge it and release the mailbox.
    /// A reserved CODE in a flagged mailbox is a hardware fault, left out.
    pub fn receive(&self, mailbox: usize, flags: u32, words: &MailboxWords) -> (r: Result<
        (CanFrame, Vec<RegisterOp>),
        ReceiveError,
    >)
        requires
            mailbox < MAILBOX_COUNT && flags & flag_mask(mailbox as int) != 0 ==> code_of(
                cs_code(words.control) as u8,
            ) is Some,
        ensures
            mailbox >= MAILBOX_COUNT ==> r == Err::<(CanFrame, Vec<RegisterOp>), ReceiveError>(
                ReceiveError::MailboxNonExisting,
            ),
            mailbox < MAILBOX_COUNT && flags & flag_mask(mailbox as int) == 0 ==> r == Err::<
                (CanFrame, Vec<RegisterOp>),
                ReceiveError,
            >(ReceiveError::MailboxEmpty),
            mailbox < MAILBOX_COUNT && flags & flag_mask(mailbox as int) != 0 && busy(words.control)
                ==> r == Err::<(CanFrame, Vec<RegisterOp>), ReceiveError>(ReceiveError::MailboxBusy),
            r is Ok <==> (mailbox < MAILBOX_COUNT && flags & flag_mask(mailbox as int) != 0 && !busy(
                words.control,
            )),
            r is Ok ==> r->Ok_0.0@ == frame_of_words(*words) && r->Ok_0.0@.wf() && r->Ok_0.1@
                == acknowledge_ops(mailbox as int),
    {
        match self.check_mailbox(mailbox, flags) {
            Ok(()) => {},
            Err(e) => return Err(e),
        }
        if mailbox_busy(words.control) {
            return Err(ReceiveError::MailboxBusy);
        }
        let (_header, frame) = read_mailbox(words);
        let mut ops: Vec<RegisterOp> = Vec::new();
        ops.push(RegisterOp::ClearFlags(flag_of(mailbox)));
        ops.push(RegisterOp::ReadTimer);
        assert(ops@ =~= acknowledge_ops(mailbox as int));
        Ok((frame, ops))
    }

    /// The accesses that abort a pending transmission in a mailbox, given its
    /// control word. Only a mailbox whose CODE is a pending transmission can
    /// be aborted; for any other, nothing is to be performed. Whether the
    /// frame went out before the abort took hold cannot be told afterwards.
    pub fn abort_mailbox(&self, mailbox: usize, control: u32) -> (r: Vec<RegisterOp>)
        ensures
            mailbox < MAILBOX_COUNT && code_of(cs_code(control) as u8) == Some(
                MessageBufferCode::Transmit(TransmitBufferState::DataRemote),
            ) ==> r@ == abort_ops(mailbox as int),
            !(mailbox < MAILBOX_COUNT && code_of(cs_code(control) as u8) == Some(
                MessageBufferCode::Transmit(TransmitBufferState::DataRemote),
            )) ==> r@.len() == 0,
    {
        let mut ops: Vec<RegisterOp> = Vec::new();
        if mailbox < MAILBOX_COUNT && MessageBufferCode::decode(control_code(control)) == Some(
            MessageBufferCode::Transmit(TransmitBufferState::DataRemote),
        ) {
            let flag = flag_of(mailbox);
            ops.push(RegisterOp::ClearFlags(flag));
            ops.push(
                RegisterOp::WriteWord {
                    index: 4 * mailbox,
                    value: (MessageBufferCode::Transmit(TransmitBufferState::Abort).encode() as u32)
                        << 24,
                },
            );
            ops.push(RegisterOp::WaitFlags(flag));
            assert(ops@ =~= abort_ops(mailbox as int));
        }
        ops
    }
}

/// The message buffer memory after the first `n` accesses: word writes
/// land, every other access leaves the memory as it is.
pub open spec fn memory_after(ram: Seq<u32>, ops: Seq<RegisterOp>, n: nat) -> Seq<u32>
    decreases n,
{
    if n == 0 {
        ram
    } else {
        let before = memory_after(ram, ops, (n - 1) as nat);
        match ops[n - 1] {
            RegisterOp::WriteWord { index, value } => if index < before.len() {
                before.update(index as int, value)
            } else {
                before
            },
            _ => before,
        }
    }
}

/// The four words of a mailbox in the message buffer memory.
pub open spec fn words_at(ram: Seq<u32>, mailbox: int) -> MailboxWords {
    MailboxWords {
        control: ram[4 * mailbox],
        id: ram[4 * mailbox + 1],
        data0: ram[4 * mailbox + 2],
        data1: ram[4 * mailbox + 3],
    }
}

/// The words with the CODE field of the control word replaced.
pub open spec fn with_code(w: MailboxWords, code: MessageBufferCode) -> MailboxWords {
    MailboxWords {
        control: (w.control & 0xF0FF_FFFFu32) | ((code_bits(code) as u32) << 24u32),
        ..w
    }
}

proof fn lemma_code_change_keeps_fields(control: u32, code: u32)
    by (bit_vector)
    requires
        code < 16,
    ensures
        cs_ide((control & 0xF0FF_FFFFu32) | (code << 24u32)) == cs_ide(control),
        cs_rtr((control & 0xF0FF_FFFFu32) | (code << 24u32)) == cs_rtr(control),
        cs_dlc((control & 0xF0FF_FFFFu32) | (code << 24u32)) == cs_dlc(control),
{
}

/// Whatever the message buffer memory held, after the accesses that
/// `transmit` returns for a mailbox the mailbox holds exactly the words of
/// the frame, and once the controller has turned its CODE into any receive
/// code (as when the frame comes back in loop-back mode) the mailbox reads
/// back as the same frame.
pub proof fn lemma_transmitted_frame_reads_back(
    ram: Seq<u32>,
    mailbox: int,
    frame: FrameView,
    received: ReceiveBufferCode,
)
    requires
        frame.wf(),
        0 <= mailbox < MAILBOX_COUNT,
        ram.len() == 4 * MAILBOX_COUNT,
    ensures
        ({
            let w = mailbox_words_of(transmit_header(), frame);
            let ops = write_ops(mailbox, w);
            let after = memory_after(ram, ops, ops.len());
            &&& words_at(after, mailbox) == w
            &&& frame_of_words(with_code(words_at(after, mailbox), MessageBufferCode::Receive(received)))
                == frame
            &&& forall|i: int|
                0 <= i < ram.len() && !(4 * mailbox <= i < 4 * mailbox + 4) ==> #[trigger] after[i]
                    == ram[i]
        }),
{
    let w = mailbox_words_of(transmit_header(), frame);
    let ops = write_ops(mailbox, w);
    assert(ops.len() == 5);
    reveal_with_fuel(memory_after, 6);
    let after = memory_after(ram, ops, 5);
    assert(words_at(after, mailbox) == w);
    lemma_mailbox_round_trip(transmit_header(), frame);
    let code = MessageBufferCode::Receive(received);
    crate::code::lemma_decode_encode(code);
    lemma_code_change_keeps_fields(w.control, code_bits(code) as u32);
    let changed = with_code(w, code);
    if !frame.remote() {
        assert(frame_of_words(changed).payload() =~= frame_of_words(w).payload());
    }
}

proof fn lemma_memory_prefix(ram: Seq<u32>, a: Seq<RegisterOp>, b: Seq<RegisterOp>, n: nat)
    requires
        n <= a.len(),
        n <= b.len(),
        forall|i: int| 0 <= i < n ==> a[i] == b[i],
    ensures
        memory_after(ram, a, n) == memory_after(ram, b, n),
    decreases n,
{
    if n > 0 {
        lemma_memory_prefix(ram, a, b, (n - 1) as nat);
    }
}

proof fn lemma_memory_concat(ram: Seq<u32>, a: Seq<RegisterOp>, b: Seq<RegisterOp>)
    ensures
        memory_after(ram, a + b, a.len() + b.len()) == memory_after(
            memory_after(ram, a, a.len()),
            b,
            b.len(),
        ),
    decreases b.len(),
{
    if b.len() == 0 {
        lemma_memory_prefix(ram, a + b, a, a.len());
    } else {
        let b1 = b.drop_last();
        lemma_memory_concat(ram, a, b1);
        lemma_memory_prefix(ram, a + b, a + b1, a.len() + b1.len());
        lemma_memory_prefix(memory_after(ram, a, a.len()), b, b1, b1.len());
        assert((a + b)[a.len() + b.len() - 1] == b[b.len() - 1]);
    }
}

proof fn lemma_leave_freeze_keeps_memory(ram: Seq<u32>)
    ensures
        memory_after(ram, leave_freeze_ops(), leave_freeze_ops().len()) == ram,
{
    reveal_with_fuel(memory_after, 3);
}

proof fn lemma_setup_one(ram: Seq<u32>, mailbox: int, header: MailboxHeader, control: u32)
    requires
        0 <= mailbox < MAILBOX_COUNT,
        ram.len() == 4 * MAILBOX_COUNT,
    ensures
        ({
            let ops = setup_ops(mailbox, header, control);
            let after = memory_after(ram, ops, ops.len());
            &&& after.len() == ram.len()
            &&& words_at(after, mailbox) == mailbox_words_of(header, filter_frame())
            &&& forall|i: int|
                0 <= i < ram.len() && !(4 * mailbox <= i < 4 * mailbox + 4) ==> #[trigger] after[i]
                    == ram[i]
        }),
{
    let ops = setup_ops(mailbox, header, control);
    assert(ops.len() == 6);
    reveal_with_fuel(memory_after, 7);
}

proof fn lemma_setup_all(ram: Seq<u32>, headers: Seq<MailboxHeader>, controls: Seq<u32>, n: nat)
    requires
        n <= MAILBOX_COUNT,
        headers.len() >= n,
        controls.len() >= n,
        ram.len() == 4 * MAILBOX_COUNT,
    ensures
        ({
            let ops = setup_all_ops(headers, controls, n);
            let after = memory_after(ram, ops, ops.len());
            &&& after.len() == ram.len()
            &&& forall|m: int|
                0 <= m < n ==> #[trigger] words_at(after, m) == mailbox_words_of(
                    headers[m],
                    filter_frame(),
                )
            &&& forall|i: int| 4 * n <= i < ram.len() ==> #[trigger] after[i] == ram[i]
        }),
    decreases n,
{
    if n > 0 {
        let k = (n - 1) as nat;
        lemma_setup_all(ram, headers, controls, k);
        let a = setup_all_ops(headers, controls, k);
        let b = setup_ops(k as int, headers[k as int], controls[k as int]);
        let mid = memory_after(ram, a, a.len());
        lemma_memory_concat(ram, a, b);
        lemma_setup_one(mid, k as int, headers[k as int], controls[k as int]);
        let after = memory_after(mid, b, b.len());
        assert forall|m: int| 0 <= m < n implies #[trigger] words_at(after, m) == mailbox_words_of(
            headers[m],
            filter_frame(),
        ) by {
            if m < k {
                assert(words_at(mid, m) == mailbox_words_of(headers[m], filter_frame()));
                assert(after[4 * m] == mid[4 * m]);
                assert(after[4 * m + 1] == mid[4 * m + 1]);
                assert(after[4 * m + 2] == mid[4 * m + 2]);
                assert(after[4 * m + 3] == mid[4 * m + 3]);
            }
        }
    }
}

/// Whatever the message buffer memory held, after the accesses that
/// `configure_mailboxes` returns every active mailbox holds the words of its
/// header with the filter frame, so it starts from the header's CODE; the
/// memory of the inactive mailboxes is left alone.
pub proof fn lemma_mailboxes_start_from_headers(
    ram: Seq<u32>,
    headers: Seq<MailboxHeader>,
    controls: Seq<u32>,
    n: nat,
)
    requires
        1 <= n <= MAILBOX_COUNT,
        headers.len() == n,
        controls.len() == n,
        ram.len() == 4 * MAILBOX_COUNT,
    ensures
        ({
            let ops = setup_all_ops(headers, controls, n) + leave_freeze_ops();
            let after = memory_after(ram, ops, ops.len());
            &&& forall|m: int|
                0 <= m < n ==> #[trigger] words_at(after, m) == mailbox_words_of(
                    headers[m],
                    filter_frame(),
                ) && code_of(cs_code(after[4 * m]) as u8) == Some(headers[m].code)
            &&& forall|i: int| 4 * n <= i < ram.len() ==> #[trigger] after[i] == ram[i]
        }),
{
    let a = setup_all_ops(headers, controls, n);
    let mid = memory_after(ram, a, a.len());
    lemma_setup_all(ram, headers, controls, n);
    lemma_memory_concat(ram, a, leave_freeze_ops());
    lemma_leave_freeze_keeps_memory(mid);
    assert forall|m: int| 0 <= m < n implies code_of(cs_code(mid[4 * m]) as u8) == Some(
        headers[m].code,
    ) by {
        assert(words_at(mid, m) == mailbox_words_of(headers[m], filter_frame()));
        lemma_mailbox_round_trip(headers[m], filter_frame());
    }
}

} // verus!
