//! The four-bit CODE field of a FlexCAN message buffer and its meaning.

use vstd::prelude::*;

verus! {

/// Lifecycle of a receive message buffer.
#[derive(Clone, Copy, Debug, PartialEq, Eq, Structural)]
pub enum ReceiveBufferState {
    /// MB is not active
    Inactive,
    /// MB is active and empty
    Empty,
    /// MB is full
    Full,
    /// MB is being overwritten into a full buffer
    Overrun,
    /// MB is configured to recognise a remote request frame and answer it
    Ranswer,
}

/// A receive code: a state together with the busy hazard flag.
#[derive(Clone, Copy, Debug, PartialEq, Eq, Structural)]
pub struct ReceiveBufferCode {
    pub state: ReceiveBufferState,
    /// FlexCAN is updating the contents of the MB, the CPU must not access the MB
    pub busy: bool,
}

/// Lifecycle of a transmit message buffer.
#[derive(Clone, Copy, Debug, PartialEq, Eq, Structural)]
pub enum TransmitBufferState {
    /// MB is not active
    Inactive,
    /// MB is aborted
    Abort,
    /// MB is a Tx data frame or Tx remote frame, depending on the RTR bit
    DataRemote,
    /// MB is a Tx response frame to an incoming remote request frame
    Tanswer,
}

/// The meaning of the CODE field of a message buffer.
#[derive(Clone, Copy, Debug, PartialEq, Eq, Structural)]
pub enum MessageBufferCode {
    Receive(ReceiveBufferCode),
    Transmit(TransmitBufferState),
}

/// The three state bits (bits 1 to 3 of CODE) of a receive state.
pub open spec fn receive_state_bits(s: ReceiveBufferState) -> u8 {
    match s {
        ReceiveBufferState::Inactive => 0b000,
        ReceiveBufferState::Empty => 0b010,
        ReceiveBufferState::Full => 0b001,
        ReceiveBufferState::Overrun => 0b011,
        ReceiveBufferState::Ranswer => 0b101,
    }
}

/// The hardware CODE of a message buffer code: for receive codes the busy
/// flag is bit 0 and the state occupies bits 1 to 3; transmit codes all have
/// bit 3 set.
pub open spec fn code_bits(c: MessageBufferCode) -> u8 {
    match c {
        MessageBufferCode::Receive(r) => (2 * receive_state_bits(r.state) + if r.busy {
            1u8
        } else {
            0u8
        }) as u8,
        MessageBufferCode::Transmit(t) => match t {
            TransmitBufferState::Inactive => 0b1000,
            TransmitBufferState::Abort => 0b1001,
            TransmitBufferState::DataRemote => 0b1100,
            TransmitBufferState::Tanswer => 0b1110,
        },
    }
}

/// The receive code with the given state and busy flag.
pub open spec fn rx(state: ReceiveBufferState, busy: bool) -> MessageBufferCode {
    MessageBufferCode::Receive(ReceiveBufferCode { state, busy })
}

/// The message buffer code that a four-bit CODE value stands for; `None` for
/// the two reserved patterns and for values that do not fit in four bits.
pub open spec fn code_of(bits: u8) -> Option<MessageBufferCode> {
    if bits == 0b0000 {
        Some(rx(ReceiveBufferState::Inactive, false))
    } else if bits == 0b0001 {
        Some(rx(ReceiveBufferState::Inactive, true))
    } else if bits == 0b0010 {
        Some(rx(ReceiveBufferState::Full, false))
    } else if bits == 0b0011 {
        Some(rx(ReceiveBufferState::Full, true))
    } else if bits == 0b0100 {
        Some(rx(ReceiveBufferState::Empty, false))
    } else if bits == 0b0101 {
        Some(rx(ReceiveBufferState::Empty, true))
    } else if bits == 0b0110 {
        Some(rx(ReceiveBufferState::Overrun, false))
    } else if bits == 0b0111 {
        Some(rx(ReceiveBufferState::Overrun, true))
    } else if bits == 0b1010 {
        Some(rx(ReceiveBufferState::Ranswer, false))
    } else if bits == 0b1011 {
        Some(rx(ReceiveBufferState::Ranswer, true))
    } else if bits == 0b1000 {
        Some(MessageBufferCode::Transmit(TransmitBufferState::Inactive))
    } else if bits == 0b1001 {
        Some(MessageBufferCode::Transmit(TransmitBufferState::Abort))
    } else if bits == 0b1100 {
        Some(MessageBufferCode::Transmit(TransmitBufferState::DataRemote))
    } else if bits == 0b1110 {
        Some(MessageBufferCode::Transmit(TransmitBufferState::Tanswer))
    } else {
        None
    }
}

impl MessageBufferCode {
    /// The four-bit hardware CODE of this message buffer code.
    pub fn encode(&self) -> (r: u8)
        ensures
            r == code_bits(*self),
            r < 16,
    {
        match self {
            MessageBufferCode::Receive(r) => {
                let state: u8 = match r.state {
                    ReceiveBufferState::Inactive => 0b000,
                    ReceiveBufferState::Empty => 0b010,
                    ReceiveBufferState::Full => 0b001,
                    ReceiveBufferState::Overrun => 0b011,
                    ReceiveBufferState::Ranswer => 0b101,
                };
                let busy: u8 = if r.busy {
                    1
                } else {
                    0
                };
                2 * state + busy
            },
            MessageBufferCode::Transmit(t) => match t {
                TransmitBufferState::Inactive => 0b1000,
                TransmitBufferState::Abort => 0b1001,
                TransmitBufferState::DataRemote => 0b1100,
                TransmitBufferState::Tanswer => 0b1110,
            },
        }
    }

    /// Decodes a four-bit CODE read from a message buffer. Every one of the
    /// sixteen patterns but the two reserved ones (`0b1101`, `0b1111`) has a
    /// meaning; the reserved ones and values above fifteen give `None`.
    pub fn decode(bits: u8) -> (r: Option<MessageBufferCode>)
        ensures
            r == code_of(bits),
            r.is_some() <==> (bits < 16 && bits != 0b1101 && bits != 0b1111),
    {
        let rx = |state: ReceiveBufferState, busy: bool| -> (c: MessageBufferCode)
            ensures
                c == rx(state, busy),
            { MessageBufferCode::Receive(ReceiveBufferCode { state, busy }) };
        match bits {
            0b0000 => Some(rx(ReceiveBufferState::Inactive, false)),
            0b0001 => Some(rx(ReceiveBufferState::Inactive, true)),
            0b0010 => Some(rx(ReceiveBufferState::Full, false)),
            0b0011 => Some(rx(ReceiveBufferState::Full, true)),
            0b0100 => Some(rx(ReceiveBufferState::Empty, false)),
            0b0101 => Some(rx(ReceiveBufferState::Empty, true)),
            0b0110 => Some(rx(ReceiveBufferState::Overrun, false)),
            0b0111 => Some(rx(ReceiveBufferState::Overrun, true)),
            0b1010 => Some(rx(ReceiveBufferState::Ranswer, false)),
            0b1011 => Some(rx(ReceiveBufferState::Ranswer, true)),
            0b1000 => Some(MessageBufferCode::Transmit(TransmitBufferState::Inactive)),
            0b1001 => Some(MessageBufferCode::Transmit(TransmitBufferState::Abort)),
            0b1100 => Some(MessageBufferCode::Transmit(TransmitBufferState::DataRemote)),
            0b1110 => Some(MessageBufferCode::Transmit(TransmitBufferState::Tanswer)),
            _ => None,
        }
    }
}

impl From<MessageBufferCode> for u8 {
    fn from(code: MessageBufferCode) -> (r: u8) {
        code.encode()
    }
}

impl vstd::std_specs::convert::FromSpecImpl<MessageBufferCode> for u8 {
    open spec fn obeys_from_spec() -> bool {
        true
    }

    open spec fn from_spec(v: MessageBufferCode) -> u8 {
        code_bits(v)
    }
}

/// Decoding the encoding of any message buffer code gives that code back.
pub proof fn lemma_decode_encode(c: MessageBufferCode)
    ensures
        code_of(code_bits(c)) == Some(c),
        code_bits(c) < 16,
{
}

/// A CODE value that decodes at all is the encoding of what it decodes to, so
/// no two codes share a pattern.
pub proof fn lemma_encode_decode(bits: u8)
    ensures
        code_of(bits) is Some ==> code_bits(code_of(bits).unwrap()) == bits,
{
}

} // verus!
