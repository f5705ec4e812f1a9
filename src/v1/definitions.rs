//! High-level model of an ISAKMP (IKEv1) message.
use vstd::prelude::*;

use crate::v1::params::{AttributeType, DomainOfInterpretation, ExchangeType, NotifyMessageType, PayloadType};

verus! {

/// Size of the fixed ISAKMP header.
pub const HEADER_SIZE: usize = 28;

/// Size of the generic payload header.
pub const GENERIC_PAYLOAD_HEADER_SIZE: usize = 4;

/// A parsed ISAKMP message, its payloads grouped by type.
#[derive(Debug, Clone, PartialEq, Eq)]
pub struct Packet {
    /// The header of the message
    pub header: Header,
    /// Notification payloads
    pub notification_payloads: Vec<NotificationPayload>,
    /// Security association payloads
    pub security_associations: Vec<SecurityAssociationPayload>,
    /// Vendor ID payloads
    pub vendor_ids: Vec<VendorIDPayload>,
    /// Transform payloads found at the top level
    pub transforms: Vec<TransformPayload>,
    /// Proposal payloads found at the top level
    pub proposals: Vec<ProposalPayload>,
}

/// The ISAKMP header.
#[derive(Debug, Clone, Copy, PartialEq, Eq, Structural)]
pub struct Header {
    /// Cookie of the initiator
    pub initiator_cookie: u64,
    /// Cookie of the responder
    pub responder_cookie: u64,
    /// Type of the first payload
    pub next_payload: PayloadType,
    /// Major version (upper nibble of the version byte)
    pub major_version: u8,
    /// Minor version (lower nibble of the version byte)
    pub minor_version: u8,
    /// Exchange mode
    pub exchange_mode: ExchangeType,
    /// Flags
    pub flags: u8,
    /// Message identifier, 0 in phase 1
    pub message_id: u32,
    /// Length of the whole message
    pub length: u32,
}

/// A notification payload.
#[derive(Debug, Clone, PartialEq, Eq)]
pub struct NotificationPayload {
    /// Type of the next payload
    pub next_payload: PayloadType,
    /// Declared length of this payload
    pub length: u16,
    /// Protocol of the notification
    pub protocol_id: u8,
    /// Notify message type
    pub notify_message_type: NotifyMessageType,
    /// Everything after the fixed part
    pub notification: Vec<u8>,
}

/// A security association payload.
#[derive(Debug, Clone, PartialEq, Eq)]
pub struct SecurityAssociationPayload {
    /// Type of the next payload
    pub next_payload: PayloadType,
    /// Declared length of this payload, proposals included
    pub length: u16,
    /// Domain of interpretation
    pub domain_of_interpretation: DomainOfInterpretation,
    /// The four situation bytes
    pub situation: Vec<u8>,
    /// Proposals in order
    pub proposal_payload: Vec<ProposalPayload>,
}

/// A proposal payload.
#[derive(Debug, Clone, PartialEq, Eq)]
pub struct ProposalPayload {
    /// Type of the next payload
    pub next_payload: PayloadType,
    /// Declared length of this payload, transforms included
    pub length: u16,
    /// Number of the proposal
    pub proposal_no: u8,
    /// Protocol of the proposal
    pub protocol_id: u8,
    /// Size of the SPI
    pub spi_size: u8,
    /// Declared number of transforms
    pub no_of_transforms: u8,
    /// The SPI
    pub spi: Vec<u8>,
    /// Transforms in order
    pub transforms: Vec<TransformPayload>,
}

/// A transform payload.
#[derive(Debug, Clone, PartialEq, Eq)]
pub struct TransformPayload {
    /// Type of the next payload
    pub next_payload: PayloadType,
    /// Declared length of this payload, attributes included
    pub length: u16,
    /// Number of the transform within its proposal
    pub transform_no: u8,
    /// Transform identifier
    pub transform_id: u8,
    /// SA attributes in order
    pub sa_attributes: Vec<DataAttribute>,
}

/// A vendor ID payload.
#[derive(Debug, Clone, PartialEq, Eq)]
pub struct VendorIDPayload {
    /// Type of the next payload
    pub next_payload: PayloadType,
    /// Declared length of this payload
    pub length: u16,
    /// The vendor ID bytes
    pub vendor_id: Vec<u8>,
}

/// A data attribute in one of its two formats.
#[derive(Debug, Clone, PartialEq, Eq)]
pub enum DataAttribute {
    /// Type and 16-bit value
    DataAttributeShort(DataAttributeShort),
    /// Type, length and value bytes
    DataAttributeLong(DataAttributeLong),
}

/// A short (type/value) data attribute.
#[derive(Debug, Clone, Copy, PartialEq, Eq, Structural)]
pub struct DataAttributeShort {
    /// Attribute class
    pub attribute_type: AttributeType,
    /// Attribute value
    pub attribute_value: u16,
}

/// A long (type/length/value) data attribute.
#[derive(Debug, Clone, PartialEq, Eq)]
pub struct DataAttributeLong {
    /// Attribute class
    pub attribute_type: AttributeType,
    /// Attribute value bytes
    pub attribute_value: Vec<u8>,
}

} // verus!
