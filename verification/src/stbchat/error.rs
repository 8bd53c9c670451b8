//! Errors of the frame codec.

use vstd::prelude::*;
use crate::number::{decimal_text, u64_to_string};

verus! {

/// What can go wrong while a packet is framed or a frame is read.
#[derive(Debug, Clone, Copy, PartialEq, Eq, Structural)]
pub enum CommunicationError {
    /// The serialized packet has this many bytes, more than a frame can carry.
    PacketTooLarge(usize),
    /// The stream ended before the frame was complete.
    FrameIncomplete,
    /// No complete frame arrived within the bounded wait.
    DecodeTimeout,
    /// The payload names a packet type that the schema does not know.
    UnknownTag,
    /// The payload names a known packet type and does not have its layout.
    InvalidPayload,
}

impl CommunicationError {
    /// The error in words.
    pub open spec fn text(&self) -> Seq<char> {
        match self {
            CommunicationError::PacketTooLarge(size) =>
                "Packet size too large, expected <=65535, got "@ + decimal_text(*size as nat),
            CommunicationError::FrameIncomplete => "Stream closed before the frame was complete"@,
            CommunicationError::DecodeTimeout => "No complete frame arrived in time"@,
            CommunicationError::UnknownTag => "Unknown packet type"@,
            CommunicationError::InvalidPayload => "Payload does not match its packet type"@,
        }
    }

    /// The error in words.
    pub fn message(&self) -> (r: String)
        ensures
            r@ == self.text(),
    {
        match self {
            CommunicationError::PacketTooLarge(size) => {
                let mut text = String::from_str("Packet size too large, expected <=65535, got ");
                let digits = u64_to_string(*size as u64);
                text.append(digits.as_str());
                text
            },
            CommunicationError::FrameIncomplete => String::from_str(
                "Stream closed before the frame was complete",
            ),
            CommunicationError::DecodeTimeout => String::from_str(
                "No complete frame arrived in time",
            ),
            CommunicationError::UnknownTag => String::from_str("Unknown packet type"),
            CommunicationError::InvalidPayload => String::from_str(
                "Payload does not match its packet type",
            ),
        }
    }
}

} // verus!
