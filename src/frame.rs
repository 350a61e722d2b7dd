//! CAN identifiers and frames.

use vstd::prelude::*;

verus! {

/// The largest 11-bit base identifier.
pub const MAX_BASE_ID: u16 = 0x7FF;

/// The largest 29-bit extended identifier.
pub const MAX_EXTENDED_ID: u32 = 0x1FFF_FFFF;

/// The largest number of payload bytes in a data frame.
pub const MAX_DATA_LENGTH: usize = 8;

/// An 11-bit base or a 29-bit extended CAN identifier.
#[derive(Clone, Copy, Debug, PartialEq, Eq, Structural)]
pub enum CanIdentifier {
    Base(u16),
    Extended(u32),
}

impl CanIdentifier {
    /// The value fits the width of its format.
    pub open spec fn wf(self) -> bool {
        match self {
            CanIdentifier::Base(v) => v <= MAX_BASE_ID,
            CanIdentifier::Extended(v) => v <= MAX_EXTENDED_ID,
        }
    }

    pub open spec fn extended(self) -> bool {
        self is Extended
    }

    /// The identifier as an unsigned number.
    pub open spec fn value(self) -> u32 {
        match self {
            CanIdentifier::Base(v) => v as u32,
            CanIdentifier::Extended(v) => v,
        }
    }

    pub fn is_valid(&self) -> (r: bool)
        ensures
            r == self.wf(),
    {
        match self {
            CanIdentifier::Base(v) => *v <= MAX_BASE_ID,
            CanIdentifier::Extended(v) => *v <= MAX_EXTENDED_ID,
        }
    }

    pub fn is_extended(&self) -> (r: bool)
        ensures
            r == self.extended(),
    {
        match self {
            CanIdentifier::Base(_) => false,
            CanIdentifier::Extended(_) => true,
        }
    }

    pub fn raw(&self) -> (r: u32)
        ensures
            r == self.value(),
    {
        match self {
            CanIdentifier::Base(v) => *v as u32,
            CanIdentifier::Extended(v) => *v,
        }
    }
}

/// A data frame with up to eight payload bytes, or a remote (request) frame.
#[derive(Clone, Debug, PartialEq, Eq)]
pub enum CanFrame {
    DataFrame { id: CanIdentifier, data: Vec<u8> },
    RemoteFrame { id: CanIdentifier },
}

/// What a frame holds, with its payload as a sequence.
pub enum FrameView {
    Data { id: CanIdentifier, data: Seq<u8> },
    Remote { id: CanIdentifier },
}

impl FrameView {
    pub open spec fn id(self) -> CanIdentifier {
        match self {
            FrameView::Data { id, .. } => id,
            FrameView::Remote { id } => id,
        }
    }

    /// The payload; empty for a remote frame.
    pub open spec fn payload(self) -> Seq<u8> {
        match self {
            FrameView::Data { data, .. } => data,
            FrameView::Remote { .. } => Seq::empty(),
        }
    }

    pub open spec fn remote(self) -> bool {
        self is Remote
    }

    /// The identifier is valid and the payload has at most eight bytes.
    pub open spec fn wf(self) -> bool {
        &&& self.id().wf()
        &&& self.payload().len() <= MAX_DATA_LENGTH
    }
}

impl View for CanFrame {
    type V = FrameView;

    open spec fn view(&self) -> FrameView {
        match self {
            CanFrame::DataFrame { id, data } => FrameView::Data { id: *id, data: data@ },
            CanFrame::RemoteFrame { id } => FrameView::Remote { id: *id },
        }
    }
}

impl CanFrame {
    pub fn id(&self) -> (r: CanIdentifier)
        ensures
            r == self@.id(),
    {
        match self {
            CanFrame::DataFrame { id, .. } => *id,
            CanFrame::RemoteFrame { id } => *id,
        }
    }

    pub fn is_remote(&self) -> (r: bool)
        ensures
            r == self@.remote(),
    {
        match self {
            CanFrame::DataFrame { .. } => false,
            CanFrame::RemoteFrame { .. } => true,
        }
    }

    /// The number of payload bytes; zero for a remote frame.
    pub fn data_length(&self) -> (r: usize)
        ensures
            r == self@.payload().len(),
    {
        match self {
            CanFrame::DataFrame { data, .. } => data.len(),
            CanFrame::RemoteFrame { .. } => 0,
        }
    }

    /// Whether the identifier is valid and the payload has at most eight bytes.
    pub fn is_valid(&self) -> (r: bool)
        ensures
            r == self@.wf(),
    {
        self.id().is_valid() && self.data_length() <= MAX_DATA_LENGTH
    }
}

} // verus!
