//! Fixed-size IKEv2 substructure headers: a read from the start of a buffer that fails
//! when the buffer is short, and a write that appends the header's bytes.
use vstd::prelude::*;

use crate::v2::params::FLAG_ATTRIBUTE_FORMAT;
use crate::v2::parser::ParserError;
use crate::wire::{push_u16, read_u16, u16_at, u16_bytes};

verus! {

/// Header of a proposal substructure (RFC 7296, 3.3.1).
#[derive(Debug, Clone, Copy, PartialEq, Eq, Structural)]
pub struct ProposalHeader {
    /// 0 for the last proposal, 2 when another follows
    pub last_substruct: u8,
    /// Reserved, zero
    pub reserved: u8,
    /// Length of the proposal, header included
    pub proposal_length: u16,
    /// Number of the proposal
    pub proposal_num: u8,
    /// Security protocol identifier
    pub protocol_id: u8,
    /// Size of the SPI that follows
    pub spi_size: u8,
    /// Number of transforms
    pub num_transforms: u8,
}

/// Header of a transform substructure (RFC 7296, 3.3.2).
#[derive(Debug, Clone, Copy, PartialEq, Eq, Structural)]
pub struct TransformHeader {
    /// 0 for the last transform, 3 when another follows
    pub last_substruct: u8,
    /// Reserved, zero
    pub reserved: u8,
    /// Length of the transform, attributes included
    pub transform_length: u16,
    /// Transform type
    pub transform_type: u8,
    /// Reserved, zero
    pub reserved2: u8,
    /// Transform identifier
    pub transform_id: u16,
}

/// Header of a transform attribute (RFC 7296, 3.3.5): type, then value or length.
#[derive(Debug, Clone, Copy, PartialEq, Eq, Structural)]
pub struct AttributeHeader {
    /// Attribute type; the top bit marks the fixed-length format
    pub attribute_type: u16,
    /// Value (fixed-length format) or length of the value (variable format)
    pub attribute_value: u16,
}

/// Header of a key exchange payload body (RFC 7296, 3.4).
#[derive(Debug, Clone, Copy, PartialEq, Eq, Structural)]
pub struct KeyExchangeHeader {
    /// Key exchange method
    pub dh_group_num: u16,
    /// Reserved, zero
    pub reserved: u16,
}

/// Header of a notify payload body (RFC 7296, 3.10).
#[derive(Debug, Clone, Copy, PartialEq, Eq, Structural)]
pub struct NotifyHeader {
    /// Protocol of the SA that the SPI belongs to
    pub protocol_id: u8,
    /// Size of the SPI that follows
    pub spi_size: u8,
    /// Notify message type
    pub notify_message_type: u16,
}

impl ProposalHeader {
    /// The eight bytes of the header.
    pub open spec fn spec_bytes(self) -> Seq<u8> {
        seq![self.last_substruct, self.reserved] + u16_bytes(self.proposal_length) + seq![
            self.proposal_num,
            self.protocol_id,
            self.spi_size,
            self.num_transforms,
        ]
    }

    /// Read the header at the start of `buf`.
    pub fn read(buf: &[u8]) -> (r: Result<ProposalHeader, ParserError>)
        ensures
            buf@.len() < 8 <==> r == Err::<ProposalHeader, ParserError>(ParserError::BufferTooSmall),
            match r {
                Ok(h) => {
                    &&& h.last_substruct == buf@[0]
                    &&& h.reserved == buf@[1]
                    &&& h.proposal_length == u16_at(buf@, 2)
                    &&& h.proposal_num == buf@[4]
                    &&& h.protocol_id == buf@[5]
                    &&& h.spi_size == buf@[6]
                    &&& h.num_transforms == buf@[7]
                },
                Err(e) => e == ParserError::BufferTooSmall && buf@.len() < 8,
            },
    {
        if buf.len() < 8 {
            return Err(ParserError::BufferTooSmall);
        }
        Ok(ProposalHeader {
            last_substruct: buf[0],
            reserved: buf[1],
            proposal_length: read_u16(buf, 2),
            proposal_num: buf[4],
            protocol_id: buf[5],
            spi_size: buf[6],
            num_transforms: buf[7],
        })
    }

    /// Append the header's bytes.
    pub fn write(&self, out: &mut Vec<u8>)
        ensures
            final(out)@ == old(out)@ + self.spec_bytes(),
    {
        out.push(self.last_substruct);
        out.push(self.reserved);
        push_u16(out, self.proposal_length);
        out.push(self.proposal_num);
        out.push(self.protocol_id);
        out.push(self.spi_size);
        out.push(self.num_transforms);
        assert(final(out)@ =~= old(out)@ + self.spec_bytes());
    }
}

impl TransformHeader {
    /// The eight bytes of the header.
    pub open spec fn spec_bytes(self) -> Seq<u8> {
        seq![self.last_substruct, self.reserved] + u16_bytes(self.transform_length) + seq![
            self.transform_type,
            self.reserved2,
        ] + u16_bytes(self.transform_id)
    }

    /// Read the header at the start of `buf`.
    pub fn read(buf: &[u8]) -> (r: Result<TransformHeader, ParserError>)
        ensures
            buf@.len() < 8 <==> r == Err::<TransformHeader, ParserError>(ParserError::BufferTooSmall),
            match r {
                Ok(h) => {
                    &&& h.last_substruct == buf@[0]
                    &&& h.reserved == buf@[1]
                    &&& h.transform_length == u16_at(buf@, 2)
                    &&& h.transform_type == buf@[4]
                    &&& h.reserved2 == buf@[5]
                    &&& h.transform_id == u16_at(buf@, 6)
                },
                Err(e) => e == ParserError::BufferTooSmall && buf@.len() < 8,
            },
    {
        if buf.len() < 8 {
            return Err(ParserError::BufferTooSmall);
        }
        Ok(TransformHeader {
            last_substruct: buf[0],
            reserved: buf[1],
            transform_length: read_u16(buf, 2),
            transform_type: buf[4],
            reserved2: buf[5],
            transform_id: read_u16(buf, 6),
        })
    }

    /// Append the header's bytes.
    pub fn write(&self, out: &mut Vec<u8>)
        ensures
            final(out)@ == old(out)@ + self.spec_bytes(),
    {
        out.push(self.last_substruct);
        out.push(self.reserved);
        push_u16(out, self.transform_length);
        out.push(self.transform_type);
        out.push(self.reserved2);
        push_u16(out, self.transform_id);
        assert(final(out)@ =~= old(out)@ + self.spec_bytes());
    }
}

impl AttributeHeader {
    /// The four bytes of the header.
    pub open spec fn spec_bytes(self) -> Seq<u8> {
        u16_bytes(self.attribute_type) + u16_bytes(self.attribute_value)
    }

    /// The attribute has the fixed-length (type/value) format: the top bit of its type is set.
    pub fn is_fixed_length(&self) -> (r: bool)
        ensures
            r == (self.attribute_type >= FLAG_ATTRIBUTE_FORMAT),
    {
        self.attribute_type >= FLAG_ATTRIBUTE_FORMAT
    }

    /// Read the header at the start of `buf`.
    pub fn read(buf: &[u8]) -> (r: Result<AttributeHeader, ParserError>)
        ensures
            buf@.len() < 4 <==> r == Err::<AttributeHeader, ParserError>(ParserError::BufferTooSmall),
            match r {
                Ok(h) => h.attribute_type == u16_at(buf@, 0) && h.attribute_value == u16_at(buf@, 2),
                Err(e) => e == ParserError::BufferTooSmall && buf@.len() < 4,
            },
    {
        if buf.len() < 4 {
            return Err(ParserError::BufferTooSmall);
        }
        Ok(AttributeHeader { attribute_type: read_u16(buf, 0), attribute_value: read_u16(buf, 2) })
    }

    /// Append the header's bytes.
    pub fn write(&self, out: &mut Vec<u8>)
        ensures
            final(out)@ == old(out)@ + self.spec_bytes(),
    {
        push_u16(out, self.attribute_type);
        push_u16(out, self.attribute_value);
        assert(final(out)@ =~= old(out)@ + self.spec_bytes());
    }
}

impl KeyExchangeHeader {
    /// The four bytes of the header.
    pub open spec fn spec_bytes(self) -> Seq<u8> {
        u16_bytes(self.dh_group_num) + u16_bytes(self.reserved)
    }

    /// Read the header at the start of `buf`.
    pub fn read(buf: &[u8]) -> (r: Result<KeyExchangeHeader, ParserError>)
        ensures
            buf@.len() < 4 <==> r == Err::<KeyExchangeHeader, ParserError>(ParserError::BufferTooSmall),
            match r {
                Ok(h) => h.dh_group_num == u16_at(buf@, 0) && h.reserved == u16_at(buf@, 2),
                Err(e) => e == ParserError::BufferTooSmall && buf@.len() < 4,
            },
    {
        if buf.len() < 4 {
            return Err(ParserError::BufferTooSmall);
        }
        Ok(KeyExchangeHeader { dh_group_num: read_u16(buf, 0), reserved: read_u16(buf, 2) })
    }

    /// Append the header's bytes.
    pub fn write(&self, out: &mut Vec<u8>)
        ensures
            final(out)@ == old(out)@ + self.spec_bytes(),
    {
        push_u16(out, self.dh_group_num);
        push_u16(out, self.reserved);
        assert(final(out)@ =~= old(out)@ + self.spec_bytes());
    }
}

impl NotifyHeader {
    /// The four bytes of the header.
    pub open spec fn spec_bytes(self) -> Seq<u8> {
        seq![self.protocol_id, self.spi_size] + u16_bytes(self.notify_message_type)
    }

    /// The notify message type reports an error (types below 16384) rather than a status.
    pub fn is_error(&self) -> (r: bool)
        ensures
            r == (self.notify_message_type < 16384),
    {
        self.notify_message_type < 16384
    }

    /// Read the header at the start of `buf`.
    pub fn read(buf: &[u8]) -> (r: Result<NotifyHeader, ParserError>)
        ensures
            buf@.len() < 4 <==> r == Err::<NotifyHeader, ParserError>(ParserError::BufferTooSmall),
            match r {
                Ok(h) => h.protocol_id == buf@[0] && h.spi_size == buf@[1] && h.notify_message_type == u16_at(buf@, 2),
                Err(e) => e == ParserError::BufferTooSmall && buf@.len() < 4,
            },
    {
        if buf.len() < 4 {
            return Err(ParserError::BufferTooSmall);
        }
        Ok(NotifyHeader { protocol_id: buf[0], spi_size: buf[1], notify_message_type: read_u16(buf, 2) })
    }

    /// Append the header's bytes.
    pub fn write(&self, out: &mut Vec<u8>)
        ensures
            final(out)@ == old(out)@ + self.spec_bytes(),
    {
        out.push(self.protocol_id);
        out.push(self.spi_size);
        push_u16(out, self.notify_message_type);
        assert(final(out)@ =~= old(out)@ + self.spec_bytes());
    }
}

} // verus!
