//! The protocol's frames: the two inbound command headers, the outbound
//! response header, the tagged command and response unions, and the handler
//! that classifies a raw buffer and builds replies.

use vstd::prelude::*;

use crate::error::ProtocolError;
use crate::fields::{be16, be16_bytes, be32, be32_bytes, push_u16_be, push_u32_be, read_u16_be,
    read_u32_be};

verus! {

/// Command tag of a read-parameter request (first byte of the frame).
pub const CMD_READ: u8 = 0x0a;

/// Command tag of a write-parameter request (first byte of the frame).
pub const CMD_WRITE: u8 = 0x09;

/// Tag carried as control bit on every outbound response.
pub const CMD_RESP: u8 = 0x0b;

/// Header of a read-parameter request: 12 bytes, all fields big-endian.
#[derive(Debug)]
pub struct RequestHeader {
    pub control_bit: u8,
    pub total_len: u32,
    pub chip_addr: u8,
    pub data_len: u32,
    pub param_addr: u16,
}

/// Header of a write-parameter request: 14 bytes, all fields big-endian,
/// followed on the wire by `data_len` payload bytes.
#[derive(Debug)]
pub struct WriteHeader {
    pub control_bit: u8,
    pub safeload: u8,
    pub channel_num: u8,
    pub total_len: u32,
    pub chip_addr: u8,
    pub data_len: u32,
    pub param_addr: u16,
}

/// The read-request header encoded in the first 12 bytes of `b`.
pub open spec fn read_header_of(b: Seq<u8>) -> RequestHeader
    recommends
        b.len() >= 12,
{
    RequestHeader {
        control_bit: b[0],
        total_len: be32(b[1], b[2], b[3], b[4]),
        chip_addr: b[5],
        data_len: be32(b[6], b[7], b[8], b[9]),
        param_addr: be16(b[10], b[11]),
    }
}

/// The write-request header encoded in the first 14 bytes of `b`.
pub open spec fn write_header_of(b: Seq<u8>) -> WriteHeader
    recommends
        b.len() >= 14,
{
    WriteHeader {
        control_bit: b[0],
        safeload: b[1],
        channel_num: b[2],
        total_len: be32(b[3], b[4], b[5], b[6]),
        chip_addr: b[7],
        data_len: be32(b[8], b[9], b[10], b[11]),
        param_addr: be16(b[12], b[13]),
    }
}

impl RequestHeader {
    /// Reads the five fixed fields of a read-request header from the front
    /// of `buf`. Field values are not validated here; that is the device
    /// layer's concern.
    pub fn from_bytes(buf: &[u8]) -> (r: Result<Self, ProtocolError>)
        ensures
            buf@.len() >= 12 ==> (r matches Ok(h) && h == read_header_of(buf@)),
            buf@.len() < 12 ==> r == Err::<Self, ProtocolError>(
                (ProtocolError::ReadHeaderTooShort { expected: 12, actual: buf@.len() as usize }),
            ),
    {
        if buf.len() < 12 {
            return Err(ProtocolError::ReadHeaderTooShort { expected: 12, actual: buf.len() });
        }
        let total_len = match read_u32_be(buf, 1) {
            Ok(v) => v,
            Err(e) => return Err(e),
        };
        let data_len = match read_u32_be(buf, 6) {
            Ok(v) => v,
            Err(e) => return Err(e),
        };
        let param_addr = match read_u16_be(buf, 10) {
            Ok(v) => v,
            Err(e) => return Err(e),
        };
        Ok(Self { control_bit: buf[0], total_len, chip_addr: buf[5], data_len, param_addr })
    }
}

impl WriteHeader {
    /// Reads the seven fixed fields of a write-request header from the front
    /// of `buf`. The payload that follows the header is not touched here.
    pub fn from_bytes(buf: &[u8]) -> (r: Result<Self, ProtocolError>)
        ensures
            buf@.len() >= 14 ==> (r matches Ok(h) && h == write_header_of(buf@)),
            buf@.len() < 14 ==> r == Err::<Self, ProtocolError>(
                (ProtocolError::WriteHeaderTooShort { expected: 14, actual: buf@.len() as usize }),
            ),
    {
        if buf.len() < 14 {
            return Err(ProtocolError::WriteHeaderTooShort { expected: 14, actual: buf.len() });
        }
        let total_len = match read_u32_be(buf, 3) {
            Ok(v) => v,
            Err(e) => return Err(e),
        };
        let data_len = match read_u32_be(buf, 8) {
            Ok(v) => v,
            Err(e) => return Err(e),
        };
        let param_addr = match read_u16_be(buf, 12) {
            Ok(v) => v,
            Err(e) => return Err(e),
        };
        Ok(Self {
            control_bit: buf[0],
            safeload: buf[1],
            channel_num: buf[2],
            total_len,
            chip_addr: buf[7],
            data_len,
            param_addr,
        })
    }
}

/// Header of an outbound response: 14 bytes on the wire, followed by the
/// payload. `total_len` holds the true logical length `13 + payload`; the
/// wire-level quirk is applied only when a whole response is serialised.
#[derive(Debug, Clone)]
pub struct ResponseHeader {
    pub control_bit: u8,
    pub total_len: u32,
    pub chip_addr: u8,
    pub data_len: u32,
    pub param_addr: u16,
    pub success: u8,
    pub reserved: [u8; 1],
}

/// The 14 bytes a response header serialises to, field by field.
pub open spec fn response_header_bytes(h: ResponseHeader) -> Seq<u8> {
    seq![h.control_bit] + be32_bytes(h.total_len) + seq![h.chip_addr] + be32_bytes(h.data_len)
        + be16_bytes(h.param_addr) + seq![h.success, h.reserved[0]]
}

impl ResponseHeader {
    /// Serialises this header's own fields in wire order. Serialisation is
    /// total: it cannot fail.
    pub fn to_bytes(&self) -> (r: Vec<u8>)
        ensures
            r@ == response_header_bytes(*self),
            r@.len() == 14,
    {
        let mut bytes: Vec<u8> = Vec::new();
        bytes.push(self.control_bit);
        push_u32_be(&mut bytes, self.total_len);
        bytes.push(self.chip_addr);
        push_u32_be(&mut bytes, self.data_len);
        push_u16_be(&mut bytes, self.param_addr);
        bytes.push(self.success);
        bytes.push(self.reserved[0]);
        assert(bytes@ =~= response_header_bytes(*self));
        bytes
    }
}

/// An inbound command, classified by the frame's first byte. The set is
/// closed: a tag the codec does not know lands in `Unknown`, never in a
/// silent fallback.
#[derive(Debug)]
#[allow(inconsistent_fields)]
pub enum ProtocolCommand {
    Read { header: RequestHeader },
    Write { header: WriteHeader, data: Vec<u8> },
    Unknown(u8),
}

/// An outbound reply. `Write` acknowledgements and `Error` replies serialise
/// to zero bytes by design; the transport layer decides how to surface an
/// error.
#[derive(Debug)]
pub enum ProtocolResponse {
    Read { header: ResponseHeader, data: Vec<u8> },
    Write,
    Error(String),
}

/// The declared total length written into a response frame. The true frame
/// length is `13 + payload`, but when the echoed `data_len` is exactly 4 the
/// wire carries one more than that: deployed controller software expects the
/// off-by-one, so it is reproduced, not corrected.
pub open spec fn wire_total_len(data_len: u32, payload_len: nat) -> nat {
    if data_len == 4 {
        13 + payload_len + 1
    } else {
        13 + payload_len
    }
}

/// The full wire image of a read response: tag, declared total length (with
/// the quirk), echoed chip address, data length and parameter address, a
/// success byte of 0, a reserved byte of 0, then the payload.
pub open spec fn read_response_bytes(header: ResponseHeader, data: Seq<u8>) -> Seq<u8> {
    seq![CMD_RESP] + be32_bytes(wire_total_len(header.data_len, data.len()) as u32)
        + seq![header.chip_addr] + be32_bytes(header.data_len) + be16_bytes(header.param_addr)
        + seq![0u8, 0u8] + data
}

impl ProtocolResponse {
    /// Serialises a reply for the transport layer to send. A `Read` reply is
    /// the full wire image of `read_response_bytes`; `Write`
    /// acknowledgements and `Error` replies serialise to an empty buffer.
    pub fn to_bytes(&self) -> (r: Vec<u8>)
        requires
            self matches ProtocolResponse::Read { header, data } ==> wire_total_len(
                header.data_len,
                data@.len(),
            ) <= u32::MAX,
        ensures
            (self matches ProtocolResponse::Read { header, data } ==> r@ == read_response_bytes(
                *header,
                data@,
            )),
            self is Write ==> r@ == Seq::<u8>::empty(),
            self is Error ==> r@ == Seq::<u8>::empty(),
    {
        match self {
            ProtocolResponse::Read { header, data } => {
                // Reproduce the legacy off-by-one: a response that echoes a
                // data_len of exactly 4 declares one byte more than the true
                // frame length.
                let total_len: u32 = if header.data_len == 4 {
                    13 + (data.len() as u32) + 1
                } else {
                    13 + (data.len() as u32)
                };
                let mut bytes: Vec<u8> = Vec::new();
                bytes.push(CMD_RESP);
                push_u32_be(&mut bytes, total_len);
                bytes.push(header.chip_addr);
                push_u32_be(&mut bytes, header.data_len);
                push_u16_be(&mut bytes, header.param_addr);
                bytes.push(0);
                bytes.push(0);
                let ghost prefix = bytes@;
                let mut i: usize = 0;
                while i < data.len()
                    invariant
                        i <= data@.len(),
                        bytes@ == prefix + data@.subrange(0, i as int),
                    decreases data@.len() - i,
                {
                    bytes.push(data[i]);
                    assert(bytes@ =~= prefix + data@.subrange(0, i as int + 1));
                    i += 1;
                }
                assert(bytes@ =~= read_response_bytes(*header, data@));
                bytes
            },
            ProtocolResponse::Write => Vec::new(),
            ProtocolResponse::Error(_) => Vec::new(),
        }
    }
}

/// The protocol handler: the entry point that classifies an inbound buffer
/// and the constructors of outbound replies. It holds no state; every
/// operation is a pure function of its arguments.
pub struct ProtocolHandler;

impl ProtocolHandler {
    /// Classifies the front of `buf` as one command and reports how many
    /// bytes were consumed, so the caller can advance its read cursor and
    /// keep the remaining bytes for the next frame.
    ///
    /// A read frame whose declared total length exceeds the bytes available
    /// is still returned, with 12 bytes consumed: its header is complete,
    /// and the transport layer may wait for the rest. A truncated write
    /// frame fails instead, because a partial payload cannot be forwarded.
    /// An unknown tag is not an error: it consumes exactly one byte so the
    /// caller can resynchronise.
    pub fn parse_command(buf: &[u8]) -> (r: Result<(ProtocolCommand, usize), ProtocolError>)
        ensures
            buf@.len() == 0 ==> r == Err::<(ProtocolCommand, usize), ProtocolError>(
                ProtocolError::EmptyBuffer,
            ),
            buf@.len() > 0 && buf@[0] == CMD_READ && buf@.len() < 12 ==> r == Err::<
                (ProtocolCommand, usize),
                ProtocolError,
            >((ProtocolError::ReadHeaderTooShort { expected: 12, actual: buf@.len() as usize })),
            buf@.len() >= 12 && buf@[0] == CMD_READ ==> (r matches Ok((cmd, used))
                && cmd == (ProtocolCommand::Read { header: read_header_of(buf@) })
                && used == if buf@.len() >= read_header_of(buf@).total_len {
                    read_header_of(buf@).total_len as usize
                } else {
                    12usize
                }),
            buf@.len() > 0 && buf@[0] == CMD_WRITE && buf@.len() < 14 ==> r == Err::<
                (ProtocolCommand, usize),
                ProtocolError,
            >((ProtocolError::WriteHeaderTooShort { expected: 14, actual: buf@.len() as usize })),
            buf@.len() >= 14 && buf@[0] == CMD_WRITE && buf@.len() < write_header_of(
                buf@,
            ).total_len ==> r == Err::<(ProtocolCommand, usize), ProtocolError>(
                (ProtocolError::PayloadTooShort {
                    expected: write_header_of(buf@).total_len as usize,
                    actual: buf@.len() as usize,
                }),
            ),
            buf@.len() >= 14 && buf@[0] == CMD_WRITE && buf@.len() >= write_header_of(
                buf@,
            ).total_len && write_header_of(buf@).data_len > buf@.len() - 14 ==> r == Err::<
                (ProtocolCommand, usize),
                ProtocolError,
            >(
                (ProtocolError::PayloadTooShort {
                    expected: write_header_of(buf@).data_len as usize,
                    actual: (buf@.len() - 14) as usize,
                }),
            ),
            buf@.len() >= 14 && buf@[0] == CMD_WRITE && buf@.len() >= write_header_of(
                buf@,
            ).total_len && write_header_of(buf@).data_len <= buf@.len() - 14 ==> (r matches Ok(
                (cmd, used),
            ) && used == write_header_of(buf@).total_len as usize && (cmd
                matches ProtocolCommand::Write { header, data } && header == write_header_of(buf@)
                && data@ == buf@.subrange(14, 14 + write_header_of(buf@).data_len as int))),
            buf@.len() > 0 && buf@[0] != CMD_READ && buf@[0] != CMD_WRITE ==> r == Ok::<
                (ProtocolCommand, usize),
                ProtocolError,
            >((ProtocolCommand::Unknown(buf@[0]), 1usize)),
    {
        if buf.len() == 0 {
            return Err(ProtocolError::EmptyBuffer);
        }
        let tag = buf[0];
        if tag == CMD_READ {
            if buf.len() >= 12 {
                let header = match RequestHeader::from_bytes(buf) {
                    Ok(h) => h,
                    Err(e) => return Err(e),
                };
                let packet_len = header.total_len as usize;
                if buf.len() >= packet_len {
                    Ok((ProtocolCommand::Read { header }, packet_len))
                } else {
                    // The declared frame is longer than the bytes at hand;
                    // the header alone is complete and usable, so hand it
                    // back and let the caller await the rest.
                    Ok((ProtocolCommand::Read { header }, 12))
                }
            } else {
                Err(ProtocolError::ReadHeaderTooShort { expected: 12, actual: buf.len() })
            }
        } else if tag == CMD_WRITE {
            if buf.len() >= 14 {
                let header = match WriteHeader::from_bytes(buf) {
                    Ok(h) => h,
                    Err(e) => return Err(e),
                };
                let required_len = header.total_len as usize;
                if buf.len() < required_len {
                    return Err(ProtocolError::PayloadTooShort {
                        expected: required_len,
                        actual: buf.len(),
                    });
                }
                // The payload is sliced by data_len, not by total_len - 14;
                // the declared lengths need not agree, so the payload gets
                // its own bounds check before any byte is read.
                let data_len = header.data_len as usize;
                if data_len > buf.len() - 14 {
                    return Err(ProtocolError::PayloadTooShort {
                        expected: data_len,
                        actual: buf.len() - 14,
                    });
                }
                let mut data: Vec<u8> = Vec::new();
                let mut i: usize = 0;
                while i < data_len
                    invariant
                        i <= data_len,
                        data_len + 14 <= buf@.len(),
                        buf@.len() <= usize::MAX,
                        data@ == buf@.subrange(14, 14 + i as int),
                    decreases data_len - i,
                {
                    data.push(buf[14 + i]);
                    assert(data@ =~= buf@.subrange(14, 14 + i as int + 1));
                    i += 1;
                }
                Ok((ProtocolCommand::Write { header, data }, required_len))
            } else {
                Err(ProtocolError::WriteHeaderTooShort { expected: 14, actual: buf.len() })
            }
        } else {
            Ok((ProtocolCommand::Unknown(tag), 1))
        }
    }

    /// Builds a read reply around the payload the device layer produced.
    /// The header stores the true logical length `13 + payload`; the wire
    /// quirk is applied later, when the reply is serialised.
    pub fn create_read_response(
        chip_addr: u8,
        data_len: u32,
        param_addr: u16,
        data: Vec<u8>,
    ) -> (r: ProtocolResponse)
        requires
            data@.len() + 13 <= u32::MAX,
        ensures
            (r matches ProtocolResponse::Read { header, data: d } && d@ == data@
                && header.control_bit == CMD_RESP && header.total_len == 13 + data@.len()
                && header.chip_addr == chip_addr && header.data_len == data_len
                && header.param_addr == param_addr && header.success == 0 && header.reserved[0]
                == 0),
    {
        let header = ResponseHeader {
            control_bit: CMD_RESP,
            total_len: 13 + (data.len() as u32),
            chip_addr,
            data_len,
            param_addr,
            success: 0,
            reserved: [0],
        };
        ProtocolResponse::Read { header, data }
    }

    /// Builds an error reply. It carries a diagnostic text for the caller to
    /// log; on the wire it serialises to zero bytes.
    pub fn create_error_response(error: String) -> (r: ProtocolResponse)
        ensures
            (r matches ProtocolResponse::Error(m) && m@ == error@),
    {
        ProtocolResponse::Error(error)
    }
}

/// Re-encoding the fields of a parsed read-request header reproduces the
/// twelve input bytes exactly, at their original offsets: parsing a read
/// header loses nothing.
pub proof fn lemma_read_header_rederives_bytes(b: Seq<u8>)
    requires
        b.len() >= 12,
    ensures
        seq![read_header_of(b).control_bit] + be32_bytes(read_header_of(b).total_len) + seq![
            read_header_of(b).chip_addr,
        ] + be32_bytes(read_header_of(b).data_len) + be16_bytes(read_header_of(b).param_addr)
            == b.subrange(0, 12),
{
    crate::fields::lemma_be32_roundtrip(b[1], b[2], b[3], b[4]);
    crate::fields::lemma_be32_roundtrip(b[6], b[7], b[8], b[9]);
    crate::fields::lemma_be16_roundtrip(b[10], b[11]);
    assert(seq![read_header_of(b).control_bit] + be32_bytes(read_header_of(b).total_len) + seq![
        read_header_of(b).chip_addr,
    ] + be32_bytes(read_header_of(b).data_len) + be16_bytes(read_header_of(b).param_addr)
        =~= b.subrange(0, 12));
}

/// Re-encoding the fields of a parsed write-request header reproduces the
/// fourteen input bytes exactly, at their original offsets.
pub proof fn lemma_write_header_rederives_bytes(b: Seq<u8>)
    requires
        b.len() >= 14,
    ensures
        seq![
            write_header_of(b).control_bit,
            write_header_of(b).safeload,
            write_header_of(b).channel_num,
        ] + be32_bytes(write_header_of(b).total_len) + seq![write_header_of(b).chip_addr]
            + be32_bytes(write_header_of(b).data_len) + be16_bytes(write_header_of(b).param_addr)
            == b.subrange(0, 14),
{
    crate::fields::lemma_be32_roundtrip(b[3], b[4], b[5], b[6]);
    crate::fields::lemma_be32_roundtrip(b[8], b[9], b[10], b[11]);
    crate::fields::lemma_be16_roundtrip(b[12], b[13]);
    assert(seq![
        write_header_of(b).control_bit,
        write_header_of(b).safeload,
        write_header_of(b).channel_num,
    ] + be32_bytes(write_header_of(b).total_len) + seq![write_header_of(b).chip_addr]
        + be32_bytes(write_header_of(b).data_len) + be16_bytes(write_header_of(b).param_addr)
        =~= b.subrange(0, 14));
}

/// The declared-length quirk, as it shows on the wire: a serialised read
/// response is `14 + payload` bytes long, and the four length bytes at
/// offsets 1 to 4 decode to `13 + payload + 1` when the echoed `data_len`
/// is exactly 4, and to the true `13 + payload` for every other `data_len`.
pub proof fn lemma_response_total_len_quirk(header: ResponseHeader, data: Seq<u8>)
    requires
        wire_total_len(header.data_len, data.len()) <= u32::MAX,
    ensures
        read_response_bytes(header, data).len() == 14 + data.len(),
        be32(
            read_response_bytes(header, data)[1],
            read_response_bytes(header, data)[2],
            read_response_bytes(header, data)[3],
            read_response_bytes(header, data)[4],
        ) == wire_total_len(header.data_len, data.len()),
        header.data_len == 4 ==> wire_total_len(header.data_len, data.len()) == 13 + data.len()
            + 1,
        header.data_len != 4 ==> wire_total_len(header.data_len, data.len()) == 13 + data.len(),
{
    let w = read_response_bytes(header, data);
    let v = wire_total_len(header.data_len, data.len()) as u32;
    crate::fields::lemma_be32_bytes_roundtrip(v);
    assert(w[1] == be32_bytes(v)[0] && w[2] == be32_bytes(v)[1] && w[3] == be32_bytes(v)[2] && w[4]
        == be32_bytes(v)[3]);
}

} // verus!
