//! The fixed 8-byte packet header that frames every message.
use vstd::prelude::*;

verus! {

/// Size in bytes of an encoded packet header.
pub const HEADER_SIZE: u16 = 8;

/// Status flags carried in the second header byte.
#[derive(Clone, Copy, Debug, PartialEq, Eq, Structural)]
pub enum MessageStatus {
    Normal,
    EndOfMessage,
    Ignore,
    ResetConnection,
    ResetConnectionSkipTran,
}

impl MessageStatus {
    pub open spec fn code(self) -> u8 {
        match self {
            MessageStatus::Normal => 0x00,
            MessageStatus::EndOfMessage => 0x01,
            MessageStatus::Ignore => 0x02,
            MessageStatus::ResetConnection => 0x08,
            MessageStatus::ResetConnectionSkipTran => 0x10,
        }
    }

    /// The wire value of this status.
    pub fn value(&self) -> (r: u8)
        ensures
            r == self.code(),
    {
        match self {
            MessageStatus::Normal => 0x00,
            MessageStatus::EndOfMessage => 0x01,
            MessageStatus::Ignore => 0x02,
            MessageStatus::ResetConnection => 0x08,
            MessageStatus::ResetConnectionSkipTran => 0x10,
        }
    }
}

/// Kind of payload that a client packet carries.
#[derive(Clone, Copy, Debug, PartialEq, Eq, Structural)]
pub enum ClientMessageType {
    PreLogin,
    Tds7Login,
    SspiLogin,
    FederatedAuthToken,
    SqlBatch,
    BulkLoad,
    Rpc,
    Attention,
    TransactionManagerRequest,
}

impl ClientMessageType {
    pub open spec fn code(self) -> u8 {
        match self {
            ClientMessageType::PreLogin => 0x12,
            ClientMessageType::Tds7Login => 0x10,
            ClientMessageType::SspiLogin => 0x11,
            ClientMessageType::FederatedAuthToken => 0x08,
            ClientMessageType::SqlBatch => 0x01,
            ClientMessageType::BulkLoad => 0x07,
            ClientMessageType::Rpc => 0x03,
            ClientMessageType::Attention => 0x06,
            ClientMessageType::TransactionManagerRequest => 0x0E,
        }
    }

    /// The wire value of this message type.
    pub fn value(&self) -> (r: u8)
        ensures
            r == self.code(),
    {
        match self {
            ClientMessageType::PreLogin => 0x12,
            ClientMessageType::Tds7Login => 0x10,
            ClientMessageType::SspiLogin => 0x11,
            ClientMessageType::FederatedAuthToken => 0x08,
            ClientMessageType::SqlBatch => 0x01,
            ClientMessageType::BulkLoad => 0x07,
            ClientMessageType::Rpc => 0x03,
            ClientMessageType::Attention => 0x06,
            ClientMessageType::TransactionManagerRequest => 0x0E,
        }
    }
}

/// Error returned when header bytes cannot be decoded.
#[derive(Clone, Copy, Debug, PartialEq, Eq, Structural)]
pub enum FormatError {
    /// Fewer than eight bytes were supplied.
    TooShort,
}

/// A decoded packet header. `length` counts the header itself plus the body.
#[derive(Clone, Copy, Debug, PartialEq, Eq, Structural)]
pub struct TdsHeader {
    pub message_type: u8,
    pub status: u8,
    pub length: u16,
    pub spid: u16,
    pub packet_id: u8,
    pub window: u8,
}

/// High byte of a 16-bit big-endian field.
pub open spec fn high_byte(v: u16) -> u8 {
    (v / 256) as u8
}

/// Low byte of a 16-bit big-endian field.
pub open spec fn low_byte(v: u16) -> u8 {
    (v % 256) as u8
}

/// The 16-bit value of two big-endian bytes.
pub open spec fn be_u16(hi: u8, lo: u8) -> u16 {
    (hi as int * 256 + lo as int) as u16
}

/// The eight bytes of a header on the wire.
pub open spec fn encode(h: TdsHeader) -> Seq<u8> {
    seq![
        h.message_type,
        h.status,
        high_byte(h.length),
        low_byte(h.length),
        high_byte(h.spid),
        low_byte(h.spid),
        h.packet_id,
        h.window,
    ]
}

/// The header read from the first eight bytes of `b`.
pub open spec fn decode(b: Seq<u8>) -> TdsHeader
    recommends
        b.len() >= 8,
{
    TdsHeader {
        message_type: b[0],
        status: b[1],
        length: be_u16(b[2], b[3]),
        spid: be_u16(b[4], b[5]),
        packet_id: b[6],
        window: b[7],
    }
}

proof fn lemma_be_u16_split(v: u16)
    ensures
        be_u16(high_byte(v), low_byte(v)) == v,
{
}

/// Decoding the encoding of any header gives that header back.
pub proof fn lemma_decode_encode(h: TdsHeader)
    ensures
        decode(encode(h)) == h,
{
    lemma_be_u16_split(h.length);
    lemma_be_u16_split(h.spid);
}

fn split_u16(v: u16) -> (r: (u8, u8))
    ensures
        r.0 == high_byte(v),
        r.1 == low_byte(v),
{
    ((v / 256) as u8, (v % 256) as u8)
}

impl TdsHeader {
    /// A fresh header: no session, first packet of its message, and the
    /// length of an empty packet of the default size (512 bytes).
    pub fn new(message_type: ClientMessageType, status: MessageStatus) -> (r: TdsHeader)
        ensures
            r.message_type == message_type.code(),
            r.status == status.code(),
            r.length == 0x200,
            r.spid == 0,
            r.packet_id == 1,
            r.window == 0,
    {
        TdsHeader {
            message_type: message_type.value(),
            status: status.value(),
            length: 0x200,
            spid: 0x0000,
            packet_id: 0x01,
            window: 0x00,
        }
    }

    pub fn update_message_type(&mut self, message_type: ClientMessageType)
        ensures
            *final(self) == (TdsHeader { message_type: message_type.code(), ..*old(self) }),
    {
        self.message_type = message_type.value();
    }

    pub fn update_status(&mut self, status: MessageStatus)
        ensures
            *final(self) == (TdsHeader { status: status.code(), ..*old(self) }),
    {
        self.status = status.value();
    }

    /// The header's eight wire bytes, multi-byte fields big-endian.
    pub fn to_byte_array(&self) -> (r: [u8; 8])
        ensures
            r@ == encode(*self),
    {
        let (len_hi, len_lo) = split_u16(self.length);
        let (spid_hi, spid_lo) = split_u16(self.spid);
        let r: [u8; 8] = [
            self.message_type,
            self.status,
            len_hi,
            len_lo,
            spid_hi,
            spid_lo,
            self.packet_id,
            self.window,
        ];
        assert(r@ =~= encode(*self));
        r
    }

    /// Reads a header from the first eight bytes of `bytes`.
    pub fn from_bytes(bytes: &[u8]) -> (r: Result<TdsHeader, FormatError>)
        ensures
            bytes@.len() < 8 <==> r is Err,
            r is Ok ==> r->Ok_0 == decode(bytes@),
    {
        if bytes.len() < 8 {
            return Err(FormatError::TooShort);
        }
        let length: u16 = bytes[2] as u16 * 256 + bytes[3] as u16;
        let spid: u16 = bytes[4] as u16 * 256 + bytes[5] as u16;
        Ok(TdsHeader {
            message_type: bytes[0],
            status: bytes[1],
            length,
            spid,
            packet_id: bytes[6],
            window: bytes[7],
        })
    }
}

} // verus!
