//! Complete LAIC message: header + payload.
use vstd::prelude::*;

use crate::error::{LaicError, ProtocolError};
use crate::protocol::constants::{
    MsgType, PayloadFormat, Qos, FLAG_END_OF_STREAM, FLAG_HAS_CREDIT_GRANT, HEADER_SIZE, MAGIC,
    VERSION,
};
use crate::protocol::header::{header_fault, MessageHeader};

verus! {

/// The header that [`Message::new`] writes for the given fields.
pub open spec fn fresh_header(
    msg_type: u16,
    msg_id: u64,
    payload_format: u8,
    qos: u8,
    payload_len: nat,
) -> MessageHeader {
    MessageHeader {
        magic: MAGIC,
        version: VERSION,
        msg_type,
        msg_id,
        correlation_id: 0,
        payload_len: payload_len as u32,
        payload_format,
        qos,
        credit_grant: 0,
        flags: 0,
        reserved: [0u8, 0u8, 0u8, 0u8],
    }
}

/// The flags after granting `credits`: the credit-grant bit is set exactly
/// when `credits > 0`.
pub open spec fn flags_with_credit(flags: u32, credits: u16) -> u32 {
    if credits > 0 {
        flags | FLAG_HAS_CREDIT_GRANT
    } else {
        flags & !FLAG_HAS_CREDIT_GRANT
    }
}

/// A complete LAIC message: a fixed header and a variable-length payload.
///
/// The header is always valid and its `payload_len` always equals the
/// payload's length; the fields are private so that nothing can break this.
#[derive(Debug, PartialEq, Eq)]
pub struct Message {
    header: MessageHeader,
    payload: Vec<u8>,
}

impl Message {
    #[verifier::type_invariant]
    spec fn inv(self) -> bool {
        &&& self.header.is_valid()
        &&& self.header.payload_len as int == self.payload@.len()
    }

    /// The message's header.
    pub closed spec fn spec_header(&self) -> MessageHeader {
        self.header
    }

    /// The message's payload bytes.
    pub closed spec fn spec_payload(&self) -> Seq<u8> {
        self.payload@
    }

    /// Create a message: `magic`, `version` and `payload_len` are filled in,
    /// correlation id, credit grant, flags and reserved bytes are zero.
    ///
    /// A payload longer than `u32::MAX` bytes is not a LAIC message.
    pub fn new(
        msg_type: MsgType,
        msg_id: u64,
        payload_format: PayloadFormat,
        qos: Qos,
        payload: Vec<u8>,
    ) -> (r: Self)
        requires
            payload@.len() <= u32::MAX,
        ensures
            r.spec_header() == fresh_header(
                msg_type@,
                msg_id,
                payload_format.spec_as_u8(),
                qos.spec_as_u8(),
                payload@.len(),
            ),
            r.spec_payload() == payload@,
    {
        let payload_len = payload.len() as u32;
        Message {
            header: MessageHeader {
                magic: MAGIC,
                version: VERSION,
                msg_type: msg_type.as_u16(),
                msg_id,
                correlation_id: 0,
                payload_len,
                payload_format: payload_format.as_u8(),
                qos: qos.as_u8(),
                credit_grant: 0,
                flags: 0,
                reserved: [0u8, 0u8, 0u8, 0u8],
            },
            payload,
        }
    }

    /// Reconstruct a message from a decoded header and payload bytes.
    ///
    /// Fails with the header's first protocol fault, or with
    /// `PayloadLengthMismatch` when `payload_len` differs from the payload.
    pub fn from_parts(header: MessageHeader, payload: Vec<u8>) -> (r: Result<Self, LaicError>)
        ensures
            header_fault(header) matches Some(e) ==> r == Err::<Message, LaicError>(
                LaicError::Protocol(e),
            ),
            header_fault(header) is None && header.payload_len as int != payload@.len() ==> r
                == Err::<Message, LaicError>(
                LaicError::Protocol(
                    ProtocolError::PayloadLengthMismatch {
                        header_len: header.payload_len,
                        actual_len: payload@.len() as usize,
                    },
                ),
            ),
            r is Ok <==> header_fault(header) is None && header.payload_len as int
                == payload@.len(),
            r matches Ok(m) ==> m.spec_header() == header && m.spec_payload() == payload@,
    {
        if header.magic != MAGIC {
            return Err(LaicError::Protocol(ProtocolError::InvalidMagic { actual: header.magic }));
        }
        if header.version != VERSION {
            return Err(
                LaicError::Protocol(ProtocolError::UnsupportedVersion { version: header.version }),
            );
        }
        if header.payload_format >= 3 {
            return Err(
                LaicError::Protocol(
                    ProtocolError::InvalidPayloadFormat { value: header.payload_format },
                ),
            );
        }
        if header.qos >= 3 {
            return Err(LaicError::Protocol(ProtocolError::InvalidQos { value: header.qos }));
        }
        if header.payload_len as usize != payload.len() {
            return Err(
                LaicError::Protocol(
                    ProtocolError::PayloadLengthMismatch {
                        header_len: header.payload_len,
                        actual_len: payload.len(),
                    },
                ),
            );
        }
        Ok(Message { header, payload })
    }

    /// Read-only access to the message header.
    pub fn header(&self) -> (r: &MessageHeader)
        ensures
            *r == self.spec_header(),
            r.is_valid(),
            r.payload_len as int == self.spec_payload().len(),
    {
        proof {
            use_type_invariant(self);
        }
        &self.header
    }

    /// Read-only access to the payload bytes.
    pub fn payload(&self) -> (r: &[u8])
        ensures
            r@ == self.spec_payload(),
    {
        self.payload.as_slice()
    }

    /// Set the credit grant and keep `FLAG_HAS_CREDIT_GRANT` in step: set
    /// when `credits > 0`, cleared otherwise. Nothing else changes.
    pub fn set_credit_grant(&mut self, credits: u16)
        ensures
            final(self).spec_payload() == old(self).spec_payload(),
            final(self).spec_header() == (MessageHeader {
                credit_grant: credits,
                flags: flags_with_credit(old(self).spec_header().flags, credits),
                ..old(self).spec_header()
            }),
    {
        proof {
            use_type_invariant(&*self);
        }
        let flags = if credits > 0 {
            self.header.flags | FLAG_HAS_CREDIT_GRANT
        } else {
            self.header.flags & !FLAG_HAS_CREDIT_GRANT
        };
        self.header.credit_grant = credits;
        self.header.flags = flags;
    }

    /// The message type as [`MsgType`].
    pub fn msg_type(&self) -> (r: MsgType)
        ensures
            r@ == self.spec_header().msg_type,
    {
        MsgType::new(self.header.msg_type)
    }

    /// Set the correlation ID for request-response matching.
    pub fn set_correlation_id(&mut self, id: u64)
        ensures
            final(self).spec_payload() == old(self).spec_payload(),
            final(self).spec_header() == (MessageHeader {
                correlation_id: id,
                ..old(self).spec_header()
            }),
    {
        proof {
            use_type_invariant(&*self);
        }
        self.header.correlation_id = id;
    }

    /// Mark this message as the last chunk in a stream.
    pub fn set_end_of_stream(&mut self)
        ensures
            final(self).spec_payload() == old(self).spec_payload(),
            final(self).spec_header() == (MessageHeader {
                flags: old(self).spec_header().flags | FLAG_END_OF_STREAM,
                ..old(self).spec_header()
            }),
    {
        proof {
            use_type_invariant(&*self);
        }
        self.header.flags = self.header.flags | FLAG_END_OF_STREAM;
    }

    /// Clear the end-of-stream flag.
    pub fn clear_end_of_stream(&mut self)
        ensures
            final(self).spec_payload() == old(self).spec_payload(),
            final(self).spec_header() == (MessageHeader {
                flags: old(self).spec_header().flags & !FLAG_END_OF_STREAM,
                ..old(self).spec_header()
            }),
    {
        proof {
            use_type_invariant(&*self);
        }
        self.header.flags = self.header.flags & !FLAG_END_OF_STREAM;
    }

    /// Whether this message is the last chunk in a stream.
    pub fn is_end_of_stream(&self) -> (r: bool)
        ensures
            r == (self.spec_header().flags & FLAG_END_OF_STREAM != 0),
    {
        self.header.flags & FLAG_END_OF_STREAM != 0
    }

    /// Decompose into header and payload for transport / codec use.
    pub fn into_parts(self) -> (r: (MessageHeader, Vec<u8>))
        ensures
            r.0 == self.spec_header(),
            r.1@ == self.spec_payload(),
            r.0.is_valid(),
            r.0.payload_len as int == r.1@.len(),
    {
        proof {
            use_type_invariant(&self);
        }
        (self.header, self.payload)
    }

    /// Total wire size: header plus payload.
    pub fn wire_size(&self) -> (r: usize)
        requires
            self.spec_payload().len() + 40 <= usize::MAX,
        ensures
            r == 40 + self.spec_payload().len(),
    {
        HEADER_SIZE + self.payload.len()
    }
}

impl Clone for Message {
    fn clone(&self) -> (r: Self)
        ensures
            r.spec_header() == self.spec_header(),
            r.spec_payload() == self.spec_payload(),
    {
        proof {
            use_type_invariant(self);
        }
        let payload = self.payload.clone();
        assert(payload@ =~= self.payload@);
        Message { header: self.header, payload }
    }
}

/// Granting credits sets the credit-grant flag exactly when `credits > 0`
/// and leaves every other flag bit as it was.
pub proof fn lemma_credit_grant_flag(flags: u32, credits: u16)
    ensures
        (flags_with_credit(flags, credits) & FLAG_HAS_CREDIT_GRANT != 0) <==> credits > 0,
        flags_with_credit(flags, credits) & !FLAG_HAS_CREDIT_GRANT == flags
            & !FLAG_HAS_CREDIT_GRANT,
{
    assert((flags | 0x10u32) & 0x10u32 != 0) by (bit_vector);
    assert((flags & !0x10u32) & 0x10u32 == 0) by (bit_vector);
    assert((flags | 0x10u32) & !0x10u32 == flags & !0x10u32) by (bit_vector);
    assert((flags & !0x10u32) & !0x10u32 == flags & !0x10u32) by (bit_vector);
}

/// Setting the end-of-stream flag makes the message read as end-of-stream,
/// clearing it makes it read as not; neither touches any other flag bit.
pub proof fn lemma_end_of_stream_flag(flags: u32)
    ensures
        (flags | FLAG_END_OF_STREAM) & FLAG_END_OF_STREAM != 0,
        (flags & !FLAG_END_OF_STREAM) & FLAG_END_OF_STREAM == 0,
        (flags | FLAG_END_OF_STREAM) & !FLAG_END_OF_STREAM == flags & !FLAG_END_OF_STREAM,
        (flags & !FLAG_END_OF_STREAM) & !FLAG_END_OF_STREAM == flags & !FLAG_END_OF_STREAM,
{
    assert((flags | 0x08u32) & 0x08u32 != 0) by (bit_vector);
    assert((flags & !0x08u32) & 0x08u32 == 0) by (bit_vector);
    assert((flags | 0x08u32) & !0x08u32 == flags & !0x08u32) by (bit_vector);
    assert((flags & !0x08u32) & !0x08u32 == flags & !0x08u32) by (bit_vector);
}

/// The end-of-stream and credit-grant flags are independent: changing one
/// never changes the other.
pub proof fn lemma_flags_independent(flags: u32, credits: u16)
    ensures
        (flags | FLAG_END_OF_STREAM) & FLAG_HAS_CREDIT_GRANT == flags & FLAG_HAS_CREDIT_GRANT,
        (flags & !FLAG_END_OF_STREAM) & FLAG_HAS_CREDIT_GRANT == flags & FLAG_HAS_CREDIT_GRANT,
        flags_with_credit(flags, credits) & FLAG_END_OF_STREAM == flags & FLAG_END_OF_STREAM,
{
    assert((flags | 0x08u32) & 0x10u32 == flags & 0x10u32) by (bit_vector);
    assert((flags & !0x08u32) & 0x10u32 == flags & 0x10u32) by (bit_vector);
    assert((flags | 0x10u32) & 0x08u32 == flags & 0x08u32) by (bit_vector);
    assert((flags & !0x10u32) & 0x08u32 == flags & 0x08u32) by (bit_vector);
}

/// A freshly built message's header carries exactly what it was built
/// with: the type, the id, the payload length, and the wire bytes of the
/// payload format and QoS level, which read back as that format and level;
/// it starts uncorrelated, with no credit grant and no flags, under the
/// protocol's magic and version.
pub proof fn lemma_fresh_header_carries(
    msg_type: MsgType,
    msg_id: u64,
    format: PayloadFormat,
    qos: Qos,
    payload_len: nat,
)
    requires
        payload_len <= u32::MAX,
    ensures
        ({
            let h = fresh_header(msg_type@, msg_id, format.spec_as_u8(), qos.spec_as_u8(), payload_len);
            &&& h.msg_type == msg_type@
            &&& h.msg_id == msg_id
            &&& h.payload_len == payload_len
            &&& PayloadFormat::spec_from_u8(h.payload_format) == Ok::<PayloadFormat, ProtocolError>(
                format,
            )
            &&& Qos::spec_from_u8(h.qos) == Ok::<Qos, ProtocolError>(qos)
            &&& h.correlation_id == 0
            &&& h.credit_grant == 0
            &&& h.flags == 0
            &&& h.magic == MAGIC
            &&& h.version == VERSION
            &&& h.is_valid()
        }),
{
}

} // verus!
