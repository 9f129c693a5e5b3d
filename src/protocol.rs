//! Wire format: constants, the frame format tag, the 36-byte packet header
//! and the errors that decoding and validation report.

use vstd::prelude::*;

verus! {

/// The four bytes "IPDS" read as a big-endian integer.
pub const MAGIC: u32 = 0x49504453;

/// The one protocol version this client speaks.
pub const VERSION: u32 = 1;

/// Size of the encoded header in bytes.
pub const HEADER_SIZE: usize = 36;

/// Largest accepted frame width in pixels.
pub const MAX_WIDTH: u32 = 7680;

/// Largest accepted frame height in pixels.
pub const MAX_HEIGHT: u32 = 4320;

/// Pixel layout or codec of a frame's payload.
#[derive(Debug, Clone, Copy, PartialEq, Eq, Structural)]
pub enum FrameFormat {
    Rgba32,
    Rgb24,
    H264,
    H265,
}

/// Which structural check a header failed, with the value found.
#[derive(Debug, Clone, Copy, PartialEq, Eq, Structural)]
pub enum HeaderFault {
    Magic(u32),
    Version(u32),
    Format(u32),
}

/// Everything that decoding, validation, receiving and conversion can report.
#[derive(Debug, Clone, Copy, PartialEq, Eq, Structural)]
pub enum ProtocolError {
    /// Fewer bytes than a whole header were supplied.
    TooShort(usize),
    /// Wrong magic, version or format tag: the header cannot be trusted.
    Malformed(HeaderFault),
    /// A dimension is zero or above its limit.
    Bounds { width: u32, height: u32 },
    /// The payload length disagrees with the declared size or pixel count.
    Integrity { expected: u64, actual: u64 },
    /// The stream ended before a message was complete.
    ConnectionClosed,
    /// Any other failure of the stream.
    Io,
    /// A codec format reached a pixel conversion.
    UnsupportedFormat(FrameFormat),
    /// No stream is open.
    NotConnected,
}

impl ProtocolError {
    /// Whether the error invalidates the connection it came from.
    pub open spec fn is_fatal_spec(self) -> bool {
        match self {
            ProtocolError::ConnectionClosed | ProtocolError::Io => true,
            _ => false,
        }
    }

    pub fn is_fatal(&self) -> (r: bool)
        ensures
            r == self.is_fatal_spec(),
    {
        match self {
            ProtocolError::ConnectionClosed | ProtocolError::Io => true,
            _ => false,
        }
    }
}

impl FrameFormat {
    /// The format a wire tag stands for, if any.
    pub open spec fn of_tag(tag: u32) -> Option<FrameFormat> {
        if tag == 0 {
            Some(FrameFormat::Rgba32)
        } else if tag == 1 {
            Some(FrameFormat::Rgb24)
        } else if tag == 2 {
            Some(FrameFormat::H264)
        } else if tag == 3 {
            Some(FrameFormat::H265)
        } else {
            None
        }
    }

    /// The wire tag of a format.
    pub open spec fn tag_spec(self) -> u32 {
        match self {
            FrameFormat::Rgba32 => 0,
            FrameFormat::Rgb24 => 1,
            FrameFormat::H264 => 2,
            FrameFormat::H265 => 3,
        }
    }

    /// Bytes per pixel of a raw pixel format; codec formats have none.
    pub open spec fn bytes_per_pixel(self) -> Option<nat> {
        match self {
            FrameFormat::Rgba32 => Some(4),
            FrameFormat::Rgb24 => Some(3),
            FrameFormat::H264 | FrameFormat::H265 => None,
        }
    }

    pub fn tag(self) -> (r: u32)
        ensures
            r == self.tag_spec(),
    {
        match self {
            FrameFormat::Rgba32 => 0,
            FrameFormat::Rgb24 => 1,
            FrameFormat::H264 => 2,
            FrameFormat::H265 => 3,
        }
    }

    /// Reads a wire tag; any value outside the enumeration is a structural error.
    pub fn from_tag(tag: u32) -> (r: Result<FrameFormat, ProtocolError>)
        ensures
            r == (match FrameFormat::of_tag(tag) {
                Some(f) => Ok(f),
                None => Err(ProtocolError::Malformed(HeaderFault::Format(tag))),
            }),
    {
        match tag {
            0 => Ok(FrameFormat::Rgba32),
            1 => Ok(FrameFormat::Rgb24),
            2 => Ok(FrameFormat::H264),
            3 => Ok(FrameFormat::H265),
            _ => Err(ProtocolError::Malformed(HeaderFault::Format(tag))),
        }
    }
}

/// Encoding and decoding of a tag are inverse to each other.
pub proof fn lemma_tag_round_trip(f: FrameFormat)
    ensures
        FrameFormat::of_tag(f.tag_spec()) == Some(f),
{
}


/// The fixed header that precedes every message on the wire.
#[derive(Debug, Clone, Copy, PartialEq, Eq, Structural)]
pub struct PacketHeader {
    pub magic: u32,
    pub version: u32,
    pub width: u32,
    pub height: u32,
    pub format: FrameFormat,
    pub timestamp: u64,
    pub size: u32,
    pub reserved: u32,
}

/// Byte `k` (0 = most significant) of the big-endian form of `x`.
pub open spec fn u32_byte(x: u32, k: int) -> u8 {
    if k == 0 {
        (x >> 24u32) as u8
    } else if k == 1 {
        (x >> 16u32) as u8
    } else if k == 2 {
        (x >> 8u32) as u8
    } else {
        x as u8
    }
}

/// Byte `k` (0 = most significant) of the big-endian form of `x`.
pub open spec fn u64_byte(x: u64, k: int) -> u8 {
    if k == 0 {
        (x >> 56u64) as u8
    } else if k == 1 {
        (x >> 48u64) as u8
    } else if k == 2 {
        (x >> 40u64) as u8
    } else if k == 3 {
        (x >> 32u64) as u8
    } else if k == 4 {
        (x >> 24u64) as u8
    } else if k == 5 {
        (x >> 16u64) as u8
    } else if k == 6 {
        (x >> 8u64) as u8
    } else {
        x as u8
    }
}

/// The big-endian integer held by `s[i..i + 4]`.
pub open spec fn be_u32_at(s: Seq<u8>, i: int) -> u32 {
    ((s[i] as u32) << 24u32) | ((s[i + 1] as u32) << 16u32) | ((s[i + 2] as u32) << 8u32) | (s[i
        + 3] as u32)
}

/// The big-endian integer held by `s[i..i + 8]`.
pub open spec fn be_u64_at(s: Seq<u8>, i: int) -> u64 {
    ((s[i] as u64) << 56u64) | ((s[i + 1] as u64) << 48u64) | ((s[i + 2] as u64) << 40u64) | ((s[i
        + 3] as u64) << 32u64) | ((s[i + 4] as u64) << 24u64) | ((s[i + 5] as u64) << 16u64) | ((s[i
        + 6] as u64) << 8u64) | (s[i + 7] as u64)
}

/// Byte `i` of the encoded header: magic, version, width, height, format,
/// timestamp, size, reserved, each big-endian.
pub open spec fn header_byte(h: PacketHeader, i: int) -> u8 {
    if i < 4 {
        u32_byte(h.magic, i)
    } else if i < 8 {
        u32_byte(h.version, i - 4)
    } else if i < 12 {
        u32_byte(h.width, i - 8)
    } else if i < 16 {
        u32_byte(h.height, i - 12)
    } else if i < 20 {
        u32_byte(h.format.tag_spec(), i - 16)
    } else if i < 28 {
        u64_byte(h.timestamp, i - 20)
    } else if i < 32 {
        u32_byte(h.size, i - 28)
    } else {
        u32_byte(h.reserved, i - 32)
    }
}

/// The 36 bytes that encode a header.
pub open spec fn header_bytes(h: PacketHeader) -> Seq<u8> {
    Seq::new(36, |i: int| header_byte(h, i))
}

/// What decoding `s` yields: the first 36 bytes read field by field, rejected
/// on a wrong magic, then a wrong version, then an unknown format tag.
pub open spec fn decode_spec(s: Seq<u8>) -> Result<PacketHeader, ProtocolError> {
    if s.len() < 36 {
        Err(ProtocolError::TooShort(s.len() as usize))
    } else if be_u32_at(s, 0) != MAGIC {
        Err(ProtocolError::Malformed(HeaderFault::Magic(be_u32_at(s, 0))))
    } else if be_u32_at(s, 4) != VERSION {
        Err(ProtocolError::Malformed(HeaderFault::Version(be_u32_at(s, 4))))
    } else {
        match FrameFormat::of_tag(be_u32_at(s, 16)) {
            None => Err(ProtocolError::Malformed(HeaderFault::Format(be_u32_at(s, 16)))),
            Some(format) => Ok(
                PacketHeader {
                    magic: be_u32_at(s, 0),
                    version: be_u32_at(s, 4),
                    width: be_u32_at(s, 8),
                    height: be_u32_at(s, 12),
                    format,
                    timestamp: be_u64_at(s, 20),
                    size: be_u32_at(s, 28),
                    reserved: be_u32_at(s, 32),
                },
            ),
        }
    }
}

/// What validating a header yields: magic, version, then the dimension bounds.
pub open spec fn validate_spec(h: PacketHeader) -> Result<(), ProtocolError> {
    if h.magic != MAGIC {
        Err(ProtocolError::Malformed(HeaderFault::Magic(h.magic)))
    } else if h.version != VERSION {
        Err(ProtocolError::Malformed(HeaderFault::Version(h.version)))
    } else if h.width == 0 || h.height == 0 || h.width > MAX_WIDTH || h.height > MAX_HEIGHT {
        Err(ProtocolError::Bounds { width: h.width, height: h.height })
    } else {
        Ok(())
    }
}

/// A header that may size a payload read.
pub open spec fn is_valid_header(h: PacketHeader) -> bool {
    validate_spec(h) is Ok
}

fn read_u32_be(data: &[u8], i: usize) -> (r: u32)
    requires
        i + 4 <= data@.len(),
    ensures
        r == be_u32_at(data@, i as int),
{
    ((data[i] as u32) << 24u32) | ((data[i + 1] as u32) << 16u32) | ((data[i + 2] as u32) << 8u32)
        | (data[i + 3] as u32)
}

fn read_u64_be(data: &[u8], i: usize) -> (r: u64)
    requires
        i + 8 <= data@.len(),
    ensures
        r == be_u64_at(data@, i as int),
{
    ((data[i] as u64) << 56u64) | ((data[i + 1] as u64) << 48u64) | ((data[i + 2] as u64) << 40u64)
        | ((data[i + 3] as u64) << 32u64) | ((data[i + 4] as u64) << 24u64) | ((data[i + 5] as u64)
        << 16u64) | ((data[i + 6] as u64) << 8u64) | (data[i + 7] as u64)
}

fn push_u32_be(out: &mut Vec<u8>, x: u32)
    ensures
        final(out)@ == old(out)@ + seq![u32_byte(x, 0), u32_byte(x, 1), u32_byte(x, 2), u32_byte(x, 3)],
{
    out.push(#[verifier::truncate] ((x >> 24u32) as u8));
    out.push(#[verifier::truncate] ((x >> 16u32) as u8));
    out.push(#[verifier::truncate] ((x >> 8u32) as u8));
    out.push(#[verifier::truncate] (x as u8));
}

fn push_u64_be(out: &mut Vec<u8>, x: u64)
    ensures
        final(out)@ == old(out)@ + seq![
            u64_byte(x, 0),
            u64_byte(x, 1),
            u64_byte(x, 2),
            u64_byte(x, 3),
            u64_byte(x, 4),
            u64_byte(x, 5),
            u64_byte(x, 6),
            u64_byte(x, 7),
        ],
{
    out.push(#[verifier::truncate] ((x >> 56u64) as u8));
    out.push(#[verifier::truncate] ((x >> 48u64) as u8));
    out.push(#[verifier::truncate] ((x >> 40u64) as u8));
    out.push(#[verifier::truncate] ((x >> 32u64) as u8));
    out.push(#[verifier::truncate] ((x >> 24u64) as u8));
    out.push(#[verifier::truncate] ((x >> 16u64) as u8));
    out.push(#[verifier::truncate] ((x >> 8u64) as u8));
    out.push(#[verifier::truncate] (x as u8));
}

/// Relies on std::time::SystemTime::elapsed, taken from the Unix epoch: the
/// wall clock in nanoseconds since the epoch, truncated to 64 bits; 0 for a
/// clock set before the epoch. Nothing is promised of the value.
#[verifier::external_body]
fn wall_clock_nanos() -> (r: u64) {
    match std::time::UNIX_EPOCH.elapsed() {
        Ok(d) => d.as_nanos() as u64,
        Err(_) => 0,
    }
}

impl PacketHeader {
    /// A header of the current protocol for the given frame, stamped with the
    /// current time.
    pub fn new(width: u32, height: u32, format: FrameFormat, size: u32) -> (r: PacketHeader)
        ensures
            r.magic == MAGIC,
            r.version == VERSION,
            r.width == width,
            r.height == height,
            r.format == format,
            r.size == size,
            r.reserved == 0,
    {
        PacketHeader {
            magic: MAGIC,
            version: VERSION,
            width,
            height,
            format,
            timestamp: wall_clock_nanos(),
            size,
            reserved: 0,
        }
    }

    /// Decodes the first header's worth of `data`; the rest is not read.
    pub fn from_bytes(data: &[u8]) -> (r: Result<PacketHeader, ProtocolError>)
        ensures
            r == decode_spec(data@),
    {
        if data.len() < HEADER_SIZE {
            return Err(ProtocolError::TooShort(data.len()));
        }
        let magic = read_u32_be(data, 0);
        let version = read_u32_be(data, 4);
        let width = read_u32_be(data, 8);
        let height = read_u32_be(data, 12);
        let format_tag = read_u32_be(data, 16);
        let timestamp = read_u64_be(data, 20);
        let size = read_u32_be(data, 28);
        let reserved = read_u32_be(data, 32);
        if magic != MAGIC {
            return Err(ProtocolError::Malformed(HeaderFault::Magic(magic)));
        }
        if version != VERSION {
            return Err(ProtocolError::Malformed(HeaderFault::Version(version)));
        }
        let format = match FrameFormat::from_tag(format_tag) {
            Ok(f) => f,
            Err(e) => return Err(e),
        };
        Ok(PacketHeader { magic, version, width, height, format, timestamp, size, reserved })
    }

    /// Encodes every field, unchecked, in wire order.
    pub fn to_bytes(&self) -> (r: Vec<u8>)
        ensures
            r@ == header_bytes(*self),
    {
        let mut out: Vec<u8> = Vec::new();
        push_u32_be(&mut out, self.magic);
        push_u32_be(&mut out, self.version);
        push_u32_be(&mut out, self.width);
        push_u32_be(&mut out, self.height);
        push_u32_be(&mut out, self.format.tag());
        push_u64_be(&mut out, self.timestamp);
        push_u32_be(&mut out, self.size);
        push_u32_be(&mut out, self.reserved);
        assert(out@ =~= header_bytes(*self));
        out
    }

    /// An info packet announces dimensions and carries no payload.
    pub fn is_info_packet(&self) -> (r: bool)
        ensures
            r == (self.size == 0),
    {
        self.size == 0
    }

    pub fn validate(&self) -> (r: Result<(), ProtocolError>)
        ensures
            r == validate_spec(*self),
    {
        if self.magic != MAGIC {
            return Err(ProtocolError::Malformed(HeaderFault::Magic(self.magic)));
        }
        if self.version != VERSION {
            return Err(ProtocolError::Malformed(HeaderFault::Version(self.version)));
        }
        if self.width == 0 || self.height == 0 {
            return Err(ProtocolError::Bounds { width: self.width, height: self.height });
        }
        if self.width > MAX_WIDTH || self.height > MAX_HEIGHT {
            return Err(ProtocolError::Bounds { width: self.width, height: self.height });
        }
        Ok(())
    }
}

proof fn lemma_u32_bytes(x: u32)
    by (bit_vector)
    ensures
        ((((x >> 24u32) as u8) as u32) << 24u32) | ((((x >> 16u32) as u8) as u32) << 16u32) | ((((x
            >> 8u32) as u8) as u32) << 8u32) | ((x as u8) as u32) == x,
{
}

proof fn lemma_u64_bytes(x: u64)
    by (bit_vector)
    ensures
        ((((x >> 56u64) as u8) as u64) << 56u64) | ((((x >> 48u64) as u8) as u64) << 48u64) | ((((x
            >> 40u64) as u8) as u64) << 40u64) | ((((x >> 32u64) as u8) as u64) << 32u64) | ((((x
            >> 24u64) as u8) as u64) << 24u64) | ((((x >> 16u64) as u8) as u64) << 16u64) | ((((x
            >> 8u64) as u8) as u64) << 8u64) | ((x as u8) as u64) == x,
{
}

proof fn lemma_be_u32_field(s: Seq<u8>, i: int, x: u32)
    requires
        0 <= i,
        i + 4 <= s.len(),
        s[i] == u32_byte(x, 0),
        s[i + 1] == u32_byte(x, 1),
        s[i + 2] == u32_byte(x, 2),
        s[i + 3] == u32_byte(x, 3),
    ensures
        be_u32_at(s, i) == x,
{
    lemma_u32_bytes(x);
}

proof fn lemma_be_u64_field(s: Seq<u8>, i: int, x: u64)
    requires
        0 <= i,
        i + 8 <= s.len(),
        forall|k: int| 0 <= k < 8 ==> s[i + k] == #[trigger] u64_byte(x, k),
    ensures
        be_u64_at(s, i) == x,
{
    assert(s[i] == u64_byte(x, 0));
    assert(s[i + 1] == u64_byte(x, 1));
    assert(s[i + 2] == u64_byte(x, 2));
    assert(s[i + 3] == u64_byte(x, 3));
    assert(s[i + 4] == u64_byte(x, 4));
    assert(s[i + 5] == u64_byte(x, 5));
    assert(s[i + 6] == u64_byte(x, 6));
    assert(s[i + 7] == u64_byte(x, 7));
    lemma_u64_bytes(x);
}

/// Decoding an encoded header gives the header back, for every header that
/// carries the protocol's magic and version (valid headers among them), whatever
/// its other fields hold.
pub proof fn lemma_header_round_trip(h: PacketHeader)
    requires
        h.magic == MAGIC,
        h.version == VERSION,
    ensures
        decode_spec(header_bytes(h)) == Ok::<PacketHeader, ProtocolError>(h),
{
    let s = header_bytes(h);
    lemma_be_u32_field(s, 0, h.magic);
    lemma_be_u32_field(s, 4, h.version);
    lemma_be_u32_field(s, 8, h.width);
    lemma_be_u32_field(s, 12, h.height);
    lemma_be_u32_field(s, 16, h.format.tag_spec());
    assert forall|k: int| 0 <= k < 8 implies s[20 + k] == #[trigger] u64_byte(h.timestamp, k) by {}
    lemma_be_u64_field(s, 20, h.timestamp);
    lemma_be_u32_field(s, 28, h.size);
    lemma_be_u32_field(s, 32, h.reserved);
    lemma_tag_round_trip(h.format);
}

/// A header whose magic is wrong is rejected as malformed, by decoding and by
/// validation alike, whatever its other fields hold.
pub proof fn lemma_wrong_magic_is_malformed(h: PacketHeader)
    requires
        h.magic != MAGIC,
    ensures
        decode_spec(header_bytes(h)) == Err::<PacketHeader, ProtocolError>(
            ProtocolError::Malformed(HeaderFault::Magic(h.magic)),
        ),
        validate_spec(h) == Err::<(), ProtocolError>(
            ProtocolError::Malformed(HeaderFault::Magic(h.magic)),
        ),
{
    lemma_be_u32_field(header_bytes(h), 0, h.magic);
}

/// With the protocol's magic and version, a zero width or a height of 7681
/// is a bounds error.
pub proof fn lemma_bad_dimensions_are_bounds_errors(h: PacketHeader)
    requires
        h.magic == MAGIC,
        h.version == VERSION,
        h.width == 0 || h.height == 7681,
    ensures
        validate_spec(h) == Err::<(), ProtocolError>(
            ProtocolError::Bounds { width: h.width, height: h.height },
        ),
{
}

} // verus!
