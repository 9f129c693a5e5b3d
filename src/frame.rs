//! A header paired with its payload, the frame's size invariant and its
//! conversion to canonical RGBA.

use vstd::prelude::*;
use crate::pixel::{rgb24_to_rgba32, rgb_to_rgba_spec};
use crate::protocol::{FrameFormat, PacketHeader, ProtocolError, validate_spec};

verus! {

/// The payload length a raw pixel format calls for; codec formats call for
/// none.
pub open spec fn pixel_bytes(h: PacketHeader) -> Option<int> {
    match h.format.bytes_per_pixel() {
        Some(b) => Some(h.width as int * h.height as int * b),
        None => None,
    }
}

/// What checking a frame yields: the header's own checks, then, for a data
/// packet of a raw pixel format, the payload length against the pixel count.
pub open spec fn frame_check_spec(h: PacketHeader, len: nat) -> Result<(), ProtocolError> {
    match validate_spec(h) {
        Err(e) => Err(e),
        Ok(_) => match pixel_bytes(h) {
            Some(n) if h.size != 0 && len != n => Err(
                ProtocolError::Integrity { expected: n as u64, actual: len as u64 },
            ),
            _ => Ok(()),
        },
    }
}

/// What converting a payload of format `f` to canonical RGBA yields.
pub open spec fn canonical_rgba_spec(f: FrameFormat, s: Seq<u8>) -> Result<Seq<u8>, ProtocolError> {
    match f {
        FrameFormat::Rgba32 => Ok(s),
        FrameFormat::Rgb24 => Ok(rgb_to_rgba_spec(s)),
        FrameFormat::H264 | FrameFormat::H265 => Err(ProtocolError::UnsupportedFormat(f)),
    }
}

/// The bytes of a conversion result, or its error.
pub open spec fn bytes_view(r: Result<Vec<u8>, ProtocolError>) -> Result<Seq<u8>, ProtocolError> {
    match r {
        Ok(v) => Ok(v@),
        Err(e) => Err(e),
    }
}

/// A header and the payload that followed it.
#[derive(Debug, Clone)]
pub struct FrameData {
    pub header: PacketHeader,
    pub data: Vec<u8>,
}

impl FrameData {
    /// Pairs a header with its payload; the payload must be exactly as long as
    /// the header declares.
    pub fn new(header: PacketHeader, data: Vec<u8>) -> (r: Result<FrameData, ProtocolError>)
        ensures
            data@.len() == header.size ==> (r matches Ok(f) && f.header == header && f.data@
                == data@),
            data@.len() != header.size ==> r == Err::<FrameData, ProtocolError>(
                ProtocolError::Integrity { expected: header.size as u64, actual: data@.len() as u64 },
            ),
    {
        if data.len() != header.size as usize {
            return Err(
                ProtocolError::Integrity { expected: header.size as u64, actual: data.len() as u64 },
            );
        }
        Ok(FrameData { header, data })
    }

    /// The payload length the frame's format calls for; a codec payload has no
    /// fixed length, so its own length is returned.
    pub open spec fn expected_size_spec(&self) -> int {
        match pixel_bytes(self.header) {
            Some(n) => n,
            None => self.data@.len() as int,
        }
    }

    pub fn expected_size(&self) -> (r: usize)
        requires
            self.expected_size_spec() <= usize::MAX,
        ensures
            r == self.expected_size_spec(),
    {
        proof {
            let (w, h) = (self.header.width as int, self.header.height as int);
            assert(w * h <= 0xffff_ffff * 0xffff_ffff) by (nonlinear_arith)
                requires
                    0 <= w <= 0xffff_ffff,
                    0 <= h <= 0xffff_ffff,
            ;
        }
        let pixels: u64 = self.header.width as u64 * self.header.height as u64;
        match self.header.format {
            FrameFormat::Rgba32 => (pixels * 4) as usize,
            FrameFormat::Rgb24 => (pixels * 3) as usize,
            FrameFormat::H264 | FrameFormat::H265 => self.data.len(),
        }
    }

    /// Checks the header, then the payload length against the pixel count for
    /// raw pixel formats.
    pub fn validate(&self) -> (r: Result<(), ProtocolError>)
        ensures
            r == frame_check_spec(self.header, self.data@.len()),
    {
        match self.header.validate() {
            Ok(()) => {},
            Err(e) => return Err(e),
        }
        if !self.header.is_info_packet() {
            match self.header.format {
                FrameFormat::Rgba32 | FrameFormat::Rgb24 => {
                    proof {
                        assert(self.header.width as int * self.header.height as int
                            <= 7680 * 4320) by (nonlinear_arith)
                            requires
                                self.header.width <= 7680,
                                self.header.height <= 4320,
                        ;
                    }
                    let expected = self.expected_size();
                    if self.data.len() != expected {
                        return Err(
                            ProtocolError::Integrity {
                                expected: expected as u64,
                                actual: self.data.len() as u64,
                            },
                        );
                    }
                },
                FrameFormat::H264 | FrameFormat::H265 => {},
            }
        }
        Ok(())
    }

    /// The payload as packed RGBA; codec payloads are not converted.
    pub fn to_rgba32(&self) -> (r: Result<Vec<u8>, ProtocolError>)
        ensures
            bytes_view(r) == canonical_rgba_spec(self.header.format, self.data@),
    {
        match self.header.format {
            FrameFormat::Rgba32 => {
                let copy = self.data.clone();
                assert(copy@ =~= self.data@);
                Ok(copy)
            },
            FrameFormat::Rgb24 => Ok(rgb24_to_rgba32(self.data.as_slice())),
            FrameFormat::H264 | FrameFormat::H265 => Err(
                ProtocolError::UnsupportedFormat(self.header.format),
            ),
        }
    }
}

/// Converting an RGB24 payload of `3k` bytes to canonical RGBA succeeds with
/// `4k` bytes, each fourth of them an opaque alpha.
pub proof fn lemma_rgb24_conversion_is_opaque(s: Seq<u8>, k: nat)
    requires
        s.len() == 3 * k,
    ensures
        canonical_rgba_spec(FrameFormat::Rgb24, s) matches Ok(out) && out.len() == 4 * k && forall|
            i: int,
        | 0 <= i < k ==> #[trigger] out[4 * i + 3] == 255,
{
    let out = rgb_to_rgba_spec(s);
    assert forall|i: int| 0 <= i < k implies #[trigger] out[4 * i + 3] == 255 by {
        assert((4 * i + 3) % 4 == 3);
    }
}

} // verus!
