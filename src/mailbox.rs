//! Layout of a FlexCAN message buffer: a control and status word, an
//! identifier word and two data words.

use vstd::prelude::*;
use crate::code::{
    MessageBufferCode, ReceiveBufferCode, ReceiveBufferState, TransmitBufferState, code_bits,
    code_of, lemma_decode_encode,
};
use crate::frame::{CanFrame, CanIdentifier, FrameView, MAX_DATA_LENGTH};

verus! {

/// Per-mailbox configuration kept in its control and identifier words.
#[derive(Clone, Copy, Debug, PartialEq, Eq, Structural)]
pub struct MailboxHeader {
    /// This bit indicates if the transmitting node is error active or error passive.
    pub error_state_indicator: bool,
    /// This 4-bit field can be accessed (read or write) by the CPU and by the FlexCAN module
    /// itself, as part of the message buffer matching and arbitration process.
    pub code: MessageBufferCode,
    /// This 16-bit field is a copy of the Free-Running Timer, captured for Tx and Rx frames at
    /// the time when the beginning of the Identifier field appears on the CAN bus
    pub time_stamp: u16,
    /// This 3-bit field is used only when LPRIO_EN bit is set in CAN_MCR, and it only makes
    /// sense for Tx mailboxes. These bits are not transmitted. They are appended to the regular
    /// ID to define the transmission priority. Only its three low bits are stored.
    pub priority: u8,
}

impl MailboxHeader {
    /// An inactive transmit mailbox.
    pub fn default_transmit() -> (r: Self)
        ensures
            r == (MailboxHeader {
                error_state_indicator: false,
                code: MessageBufferCode::Transmit(TransmitBufferState::Inactive),
                time_stamp: 0,
                priority: 0,
            }),
    {
        MailboxHeader {
            error_state_indicator: false,
            code: MessageBufferCode::Transmit(TransmitBufferState::Inactive),
            time_stamp: 0,
            priority: 0,
        }
    }

    /// An empty receive mailbox, ready to accept a frame.
    pub fn default_receive() -> (r: Self)
        ensures
            r == (MailboxHeader {
                error_state_indicator: false,
                code: MessageBufferCode::Receive(
                    ReceiveBufferCode { state: ReceiveBufferState::Empty, busy: false },
                ),
                time_stamp: 0,
                priority: 0,
            }),
    {
        MailboxHeader {
            error_state_indicator: false,
            code: MessageBufferCode::Receive(
                ReceiveBufferCode { state: ReceiveBufferState::Empty, busy: false },
            ),
            time_stamp: 0,
            priority: 0,
        }
    }
}

/// The four words of one message buffer, in register order.
#[derive(Clone, Copy, Debug, PartialEq, Eq, Structural)]
pub struct MailboxWords {
    pub control: u32,
    pub id: u32,
    pub data0: u32,
    pub data1: u32,
}

pub open spec fn flag(b: bool) -> u32 {
    if b {
        1
    } else {
        0
    }
}

/// The control and status word: ESI at bit 29, CODE at bits 24 to 27, SRR at
/// bit 22 (always set), IDE at bit 21, RTR at bit 20, DLC at bits 16 to 19 and
/// the time stamp at bits 0 to 15. EDL (bit 31) stays clear: no CAN FD.
pub open spec fn control_word_of(esi: u32, code: u32, ide: u32, rtr: u32, dlc: u32, ts: u32) -> u32 {
    (esi << 29u32) | (code << 24u32) | 0x0040_0000u32 | (ide << 21u32) | (rtr << 20u32) | (dlc
        << 16u32) | ts
}

pub open spec fn cs_code(cs: u32) -> u32 {
    (cs >> 24u32) & 0xFu32
}

pub open spec fn cs_esi(cs: u32) -> u32 {
    (cs >> 29u32) & 1u32
}

pub open spec fn cs_ide(cs: u32) -> u32 {
    (cs >> 21u32) & 1u32
}

pub open spec fn cs_rtr(cs: u32) -> u32 {
    (cs >> 20u32) & 1u32
}

pub open spec fn cs_dlc(cs: u32) -> u32 {
    (cs >> 16u32) & 0xFu32
}

pub open spec fn cs_time_stamp(cs: u32) -> u32 {
    cs & 0xFFFFu32
}

/// The identifier word: priority at bits 29 to 31, a base identifier at bits
/// 18 to 28, an extended one at bits 0 to 28.
pub open spec fn id_word_of(id: CanIdentifier, priority: u8) -> u32 {
    let p = ((priority as u32) & 7u32) << 29u32;
    match id {
        CanIdentifier::Base(v) => p | ((v as u32) << 18u32),
        CanIdentifier::Extended(v) => p | v,
    }
}

pub open spec fn id_priority(w: u32) -> u32 {
    w >> 29u32
}

pub open spec fn id_base(w: u32) -> u32 {
    (w >> 18u32) & 0x7FFu32
}

pub open spec fn id_extended(w: u32) -> u32 {
    w & 0x1FFF_FFFFu32
}

/// The identifier that an identifier word holds, in the given format.
pub open spec fn identifier_of_word(w: u32, extended: bool) -> CanIdentifier {
    if extended {
        CanIdentifier::Extended(id_extended(w))
    } else {
        CanIdentifier::Base(id_base(w) as u16)
    }
}

/// Byte `i` of a payload, zero past its end.
pub open spec fn byte_at(data: Seq<u8>, i: int) -> u32 {
    if 0 <= i < data.len() {
        data[i] as u32
    } else {
        0
    }
}

/// Four bytes in one data word, the first in the most significant byte: the
/// order in which they go on the wire.
pub open spec fn pack_word(b0: u32, b1: u32, b2: u32, b3: u32) -> u32 {
    (b0 << 24u32) | (b1 << 16u32) | (b2 << 8u32) | b3
}

/// Data word `w` (0 or 1) of a payload: bytes `4w` to `4w + 3`.
pub open spec fn data_word_of(data: Seq<u8>, w: int) -> u32 {
    pack_word(
        byte_at(data, 4 * w),
        byte_at(data, 4 * w + 1),
        byte_at(data, 4 * w + 2),
        byte_at(data, 4 * w + 3),
    )
}

/// Byte `k` (0 to 3) of a data word, counted from the most significant.
pub open spec fn word_byte(word: u32, k: int) -> u8 {
    if k == 0 {
        ((word >> 24u32) & 0xFFu32) as u8
    } else if k == 1 {
        ((word >> 16u32) & 0xFFu32) as u8
    } else if k == 2 {
        ((word >> 8u32) & 0xFFu32) as u8
    } else {
        (word & 0xFFu32) as u8
    }
}

/// The `len` payload bytes held by two data words.
pub open spec fn payload_of_words(data0: u32, data1: u32, len: nat) -> Seq<u8> {
    Seq::new(
        len,
        |i: int|
            if i < 4 {
                word_byte(data0, i)
            } else {
                word_byte(data1, i - 4)
            },
    )
}

/// The payload length for a data length code: codes above eight stand for
/// eight bytes, as in classic CAN.
pub open spec fn length_of_dlc(dlc: u32) -> nat {
    if dlc > 8 {
        8
    } else {
        dlc as nat
    }
}

/// The words that hold a frame under a header.
pub open spec fn mailbox_words_of(header: MailboxHeader, frame: FrameView) -> MailboxWords {
    MailboxWords {
        control: control_word_of(
            flag(header.error_state_indicator),
            code_bits(header.code) as u32,
            flag(frame.id().extended()),
            flag(frame.remote()),
            frame.payload().len() as u32,
            header.time_stamp as u32,
        ),
        id: id_word_of(frame.id(), header.priority),
        data0: data_word_of(frame.payload(), 0),
        data1: data_word_of(frame.payload(), 1),
    }
}

/// The frame that the words of a mailbox hold.
pub open spec fn frame_of_words(w: MailboxWords) -> FrameView {
    let id = identifier_of_word(w.id, cs_ide(w.control) == 1);
    if cs_rtr(w.control) == 1 {
        FrameView::Remote { id }
    } else {
        FrameView::Data {
            id,
            data: payload_of_words(w.data0, w.data1, length_of_dlc(cs_dlc(w.control))),
        }
    }
}

/// The header that the words of a mailbox hold, where its CODE is decodable.
pub open spec fn header_of_words(w: MailboxWords) -> MailboxHeader {
    MailboxHeader {
        error_state_indicator: cs_esi(w.control) == 1,
        code: code_of(cs_code(w.control) as u8).unwrap(),
        time_stamp: cs_time_stamp(w.control) as u16,
        priority: id_priority(w.id) as u8,
    }
}

proof fn lemma_control_fields(esi: u32, code: u32, ide: u32, rtr: u32, dlc: u32, ts: u32)
    by (bit_vector)
    requires
        esi <= 1,
        code < 16,
        ide <= 1,
        rtr <= 1,
        dlc < 16,
        ts < 0x10000,
    ensures
        cs_esi(control_word_of(esi, code, ide, rtr, dlc, ts)) == esi,
        cs_code(control_word_of(esi, code, ide, rtr, dlc, ts)) == code,
        cs_ide(control_word_of(esi, code, ide, rtr, dlc, ts)) == ide,
        cs_rtr(control_word_of(esi, code, ide, rtr, dlc, ts)) == rtr,
        cs_dlc(control_word_of(esi, code, ide, rtr, dlc, ts)) == dlc,
        cs_time_stamp(control_word_of(esi, code, ide, rtr, dlc, ts)) == ts,
{
}

proof fn lemma_id_fields(p: u32, v: u32)
    by (bit_vector)
    requires
        p < 8,
    ensures
        v <= 0x7FF ==> id_base((p << 29u32) | (v << 18u32)) == v,
        v <= 0x7FF ==> id_priority((p << 29u32) | (v << 18u32)) == p,
        v <= 0x1FFF_FFFF ==> id_extended((p << 29u32) | v) == v,
        v <= 0x1FFF_FFFF ==> id_priority((p << 29u32) | v) == p,
{
}

proof fn lemma_pack_bytes(b0: u32, b1: u32, b2: u32, b3: u32)
    by (bit_vector)
    requires
        b0 < 256,
        b1 < 256,
        b2 < 256,
        b3 < 256,
    ensures
        ((pack_word(b0, b1, b2, b3) >> 24u32) & 0xFFu32) == b0,
        ((pack_word(b0, b1, b2, b3) >> 16u32) & 0xFFu32) == b1,
        ((pack_word(b0, b1, b2, b3) >> 8u32) & 0xFFu32) == b2,
        (pack_word(b0, b1, b2, b3) & 0xFFu32) == b3,
{
}

proof fn lemma_field_bounds(w: u32)
    by (bit_vector)
    ensures
        cs_code(w) < 16,
        cs_dlc(w) < 16,
        cs_esi(w) <= 1,
        cs_ide(w) <= 1,
        cs_rtr(w) <= 1,
        cs_time_stamp(w) < 0x10000,
        id_priority(w) < 8,
        id_base(w) <= 0x7FF,
        id_extended(w) <= 0x1FFF_FFFF,
        (w & 0xFFu32) < 256,
{
}

/// Packing a valid identifier and a priority into an identifier word and
/// reading the word back in the identifier's format gives the identifier and
/// the three low bits of the priority.
pub proof fn lemma_id_word_round_trip(id: CanIdentifier, priority: u8)
    requires
        id.wf(),
    ensures
        identifier_of_word(id_word_of(id, priority), id.extended()) == id,
        id_priority(id_word_of(id, priority)) == (priority as u32) & 7,
{
    let p = (priority as u32) & 7u32;
    assert(p < 8) by (bit_vector)
        requires
            p == (priority as u32) & 7u32,
    ;
    lemma_id_fields(p, id.value());
}

/// Writing a valid frame into a mailbox under any header and reading the
/// mailbox back gives the same frame, and the header with its priority cut to
/// three bits.
pub proof fn lemma_mailbox_round_trip(header: MailboxHeader, frame: FrameView)
    requires
        frame.wf(),
    ensures
        frame_of_words(mailbox_words_of(header, frame)) == frame,
        header_of_words(mailbox_words_of(header, frame)) == (MailboxHeader {
            priority: ((header.priority as u32) & 7) as u8,
            ..header
        }),
        code_of(cs_code(mailbox_words_of(header, frame).control) as u8) == Some(header.code),
{
    let w = mailbox_words_of(header, frame);
    let data = frame.payload();
    lemma_decode_encode(header.code);
    lemma_control_fields(
        flag(header.error_state_indicator),
        code_bits(header.code) as u32,
        flag(frame.id().extended()),
        flag(frame.remote()),
        data.len() as u32,
        header.time_stamp as u32,
    );
    lemma_id_word_round_trip(frame.id(), header.priority);
    lemma_pack_bytes(byte_at(data, 0), byte_at(data, 1), byte_at(data, 2), byte_at(data, 3));
    lemma_pack_bytes(byte_at(data, 4), byte_at(data, 5), byte_at(data, 6), byte_at(data, 7));
    let decoded = frame_of_words(w);
    if !frame.remote() {
        let back = payload_of_words(w.data0, w.data1, length_of_dlc(cs_dlc(w.control)));
        assert(back =~= data);
    }
}

/// Bit `b` as 0 or 1.
fn flag_bit(b: bool) -> (r: u32)
    ensures
        r == flag(b),
{
    if b {
        1
    } else {
        0
    }
}

/// Builds the control and status word.
pub fn control_word(esi: bool, code: u8, ide: bool, rtr: bool, dlc: u8, time_stamp: u16) -> (r: u32)
    requires
        code < 16,
        dlc < 16,
    ensures
        r == control_word_of(
            flag(esi),
            code as u32,
            flag(ide),
            flag(rtr),
            dlc as u32,
            time_stamp as u32,
        ),
{
    (flag_bit(esi) << 29) | ((code as u32) << 24) | 0x0040_0000u32 | (flag_bit(ide) << 21) | (
    flag_bit(rtr) << 20) | ((dlc as u32) << 16) | (time_stamp as u32)
}

/// The CODE field of a control and status word.
pub fn control_code(cs: u32) -> (r: u8)
    ensures
        r as u32 == cs_code(cs),
        r < 16,
{
    proof {
        lemma_field_bounds(cs);
    }
    ((cs >> 24) & 0xF) as u8
}

/// Builds the identifier word.
pub fn id_word(id: &CanIdentifier, priority: u8) -> (r: u32)
    ensures
        r == id_word_of(*id, priority),
{
    let p: u32 = ((priority as u32) & 7) << 29;
    match id {
        CanIdentifier::Base(v) => p | ((*v as u32) << 18),
        CanIdentifier::Extended(v) => p | *v,
    }
}

/// The identifier held by an identifier word, in the given format.
pub fn identifier_from_word(word: u32, extended: bool) -> (r: CanIdentifier)
    ensures
        r == identifier_of_word(word, extended),
        r.wf(),
{
    proof {
        lemma_field_bounds(word);
    }
    if extended {
        CanIdentifier::Extended(word & 0x1FFF_FFFF)
    } else {
        CanIdentifier::Base(((word >> 18) & 0x7FF) as u16)
    }
}

/// Byte `i` of a payload, zero past its end.
fn byte_or_zero(data: &Vec<u8>, i: usize) -> (r: u32)
    ensures
        r == byte_at(data@, i as int),
        r < 256,
{
    if i < data.len() {
        data[i] as u32
    } else {
        0
    }
}

/// Data word `w` (0 or 1) of a payload.
fn data_word(data: &Vec<u8>, w: usize) -> (r: u32)
    requires
        w <= 1,
    ensures
        r == data_word_of(data@, w as int),
{
    let b0 = byte_or_zero(data, 4 * w);
    let b1 = byte_or_zero(data, 4 * w + 1);
    let b2 = byte_or_zero(data, 4 * w + 2);
    let b3 = byte_or_zero(data, 4 * w + 3);
    (b0 << 24) | (b1 << 16) | (b2 << 8) | b3
}

/// Byte `k` (0 to 3) of a data word, counted from the most significant.
fn byte_of_word(word: u32, k: usize) -> (r: u8)
    requires
        k < 4,
    ensures
        r == word_byte(word, k as int),
{
    proof {
        lemma_field_bounds(word >> 24u32);
        lemma_field_bounds(word >> 16u32);
        lemma_field_bounds(word >> 8u32);
        lemma_field_bounds(word);
    }
    if k == 0 {
        ((word >> 24) & 0xFF) as u8
    } else if k == 1 {
        ((word >> 16) & 0xFF) as u8
    } else if k == 2 {
        ((word >> 8) & 0xFF) as u8
    } else {
        (word & 0xFF) as u8
    }
}

/// The words that hold a valid frame under a header.
pub fn mailbox_words(header: &MailboxHeader, frame: &CanFrame) -> (r: MailboxWords)
    requires
        frame@.wf(),
    ensures
        r == mailbox_words_of(*header, frame@),
{
    let id = frame.id();
    let empty: Vec<u8> = Vec::new();
    let data: &Vec<u8> = match frame {
        CanFrame::DataFrame { data, .. } => data,
        CanFrame::RemoteFrame { .. } => &empty,
    };
    proof {
        lemma_decode_encode(header.code);
        assert(data@ =~= frame@.payload());
    }
    let control = control_word(
        header.error_state_indicator,
        header.code.encode(),
        id.is_extended(),
        frame.is_remote(),
        data.len() as u8,
        header.time_stamp,
    );
    MailboxWords {
        control,
        id: id_word(&id, header.priority),
        data0: data_word(data, 0),
        data1: data_word(data, 1),
    }
}

/// Reads the header and the frame out of the words of a mailbox whose CODE
/// is decodable.
pub fn read_mailbox(words: &MailboxWords) -> (r: (MailboxHeader, CanFrame))
    requires
        code_of(cs_code(words.control) as u8) is Some,
    ensures
        r.0 == header_of_words(*words),
        r.1@ == frame_of_words(*words),
        r.1@.wf(),
{
    proof {
        lemma_field_bounds(words.control);
        lemma_field_bounds(words.id);
    }
    let cs = words.control;
    let code = MessageBufferCode::decode(control_code(cs));
    let header = MailboxHeader {
        error_state_indicator: (cs >> 29) & 1 == 1,
        code: code.unwrap(),
        time_stamp: (cs & 0xFFFF) as u16,
        priority: (words.id >> 29) as u8,
    };
    let id = identifier_from_word(words.id, (cs >> 21) & 1 == 1);
    let frame = if (cs >> 20) & 1 == 1 {
        CanFrame::RemoteFrame { id }
    } else {
        let dlc: u32 = (cs >> 16) & 0xF;
        let len: usize = if dlc > 8 {
            MAX_DATA_LENGTH
        } else {
            dlc as usize
        };
        let mut data: Vec<u8> = Vec::new();
        let mut i: usize = 0;
        while i < len
            invariant
                i <= len,
                len == length_of_dlc(cs_dlc(cs)),
                len <= 8,
                data@ =~= payload_of_words(words.data0, words.data1, i as nat),
            decreases len - i,
        {
            let b = if i < 4 {
                byte_of_word(words.data0, i)
            } else {
                byte_of_word(words.data1, i - 4)
            };
            data.push(b);
            i = i + 1;
        }
        CanFrame::DataFrame { id, data }
    };
    (header, frame)
}

} // verus!
