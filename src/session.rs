//! The receive state machine of one connection. The caller owns the stream:
//! it performs each read or write the machine asks for and hands back what
//! happened; the machine decides what that means.

use vstd::prelude::*;
use crate::frame::{FrameData, frame_check_spec};
use crate::protocol::{HEADER_SIZE, PacketHeader, ProtocolError, decode_spec, header_bytes, is_valid_header, lemma_header_round_trip, validate_spec};

verus! {

/// Where a connection stands between reads.
#[derive(Debug, Clone, Copy, PartialEq, Eq, Structural)]
pub enum ConnState {
    /// No stream is open.
    Disconnected,
    /// The next bytes on the stream are a header.
    AwaitHeader,
    /// The next bytes on the stream are the payload this header announced.
    AwaitPayload(PacketHeader),
}

/// What an attempt to read an exact number of bytes came to.
#[derive(Debug, Clone)]
pub enum ReadOutcome {
    /// All bytes asked for arrived.
    Filled(Vec<u8>),
    /// The stream ended after this many bytes.
    Eof(usize),
    /// The stream failed otherwise.
    Failed,
}

/// What one receive operation delivers.
#[derive(Debug, Clone)]
pub enum Received {
    /// A data packet whose payload passed the frame checks.
    Frame(FrameData),
    /// An info packet: new display dimensions, no payload.
    DimensionUpdate { width: u32, height: u32 },
    /// The stream ended cleanly before a message began.
    NoData,
}

/// What the machine asks for after a header read.
#[derive(Debug)]
pub enum Step {
    /// The receive operation is over, with this result.
    Done(Result<Received, ProtocolError>),
    /// Read exactly this many payload bytes, then call `on_payload`.
    ReadPayload(usize),
}

/// How a received header is to be treated.
pub enum HeaderVerdict {
    Reject(ProtocolError),
    Info { width: u32, height: u32 },
    Payload(PacketHeader),
}

/// The header in `s` is decoded and validated; a valid one announces either
/// new dimensions (size 0) or a payload.
pub open spec fn header_verdict(s: Seq<u8>) -> HeaderVerdict {
    match decode_spec(s) {
        Err(e) => HeaderVerdict::Reject(e),
        Ok(h) => match validate_spec(h) {
            Err(e) => HeaderVerdict::Reject(e),
            Ok(_) => if h.size == 0 {
                HeaderVerdict::Info { width: h.width, height: h.height }
            } else {
                HeaderVerdict::Payload(h)
            },
        },
    }
}

/// A payload of `len` bytes after header `h`: it must have the declared
/// length, then pass the frame checks.
pub open spec fn payload_verdict(h: PacketHeader, len: nat) -> Result<(), ProtocolError> {
    if len != h.size {
        Err(ProtocolError::Integrity { expected: h.size as u64, actual: len as u64 })
    } else {
        frame_check_spec(h, len)
    }
}

/// The header whose payload is awaited.
pub open spec fn pending_header(s: ConnState) -> PacketHeader
    recommends
        s is AwaitPayload,
{
    match s {
        ConnState::AwaitPayload(h) => h,
        _ => arbitrary(),
    }
}

/// The decisions of one connection: which read comes next, and what each
/// read's outcome means.
#[derive(Debug, Clone, Copy)]
pub struct Session {
    pub state: ConnState,
}

impl Session {
    /// A session with no stream.
    pub fn new() -> (r: Session)
        ensures
            r.state == ConnState::Disconnected,
    {
        Session { state: ConnState::Disconnected }
    }

    pub fn is_connected(&self) -> (r: bool)
        ensures
            r == !(self.state is Disconnected),
    {
        match self.state {
            ConnState::Disconnected => false,
            _ => true,
        }
    }

    /// A stream has been opened: the next bytes on it are a header.
    pub fn connect(&mut self)
        ensures
            final(self).state == ConnState::AwaitHeader,
    {
        self.state = ConnState::AwaitHeader;
    }

    /// The stream has been closed.
    pub fn disconnect(&mut self)
        ensures
            final(self).state == ConnState::Disconnected,
    {
        self.state = ConnState::Disconnected;
    }

    /// Starts a receive operation: the number of header bytes to read, or
    /// `NotConnected` when there is no stream.
    pub fn begin_receive(&self) -> (r: Result<usize, ProtocolError>)
        requires
            !(self.state is AwaitPayload),
        ensures
            self.state is Disconnected ==> r == Err::<usize, ProtocolError>(
                ProtocolError::NotConnected,
            ),
            self.state is AwaitHeader ==> r == Ok::<usize, ProtocolError>(HEADER_SIZE),
    {
        match self.state {
            ConnState::Disconnected => Err(ProtocolError::NotConnected),
            _ => Ok(HEADER_SIZE),
        }
    }

    /// Takes the outcome of the header read. A clean end of stream before any
    /// byte is no data; one after some bytes closes the connection; a header
    /// that fails decoding or validation is reported and the stream stays
    /// open; an info packet ends the operation without a payload read; any
    /// other header asks for its payload.
    pub fn on_header(&mut self, outcome: ReadOutcome) -> (r: Step)
        requires
            old(self).state is AwaitHeader,
        ensures
            match outcome {
                ReadOutcome::Failed => final(self).state == ConnState::Disconnected && r
                    == Step::Done(Err(ProtocolError::Io)),
                ReadOutcome::Eof(n) => if n == 0 {
                    final(self).state == ConnState::AwaitHeader && r == Step::Done(
                        Ok(Received::NoData),
                    )
                } else {
                    final(self).state == ConnState::Disconnected && r == Step::Done(
                        Err(ProtocolError::ConnectionClosed),
                    )
                },
                ReadOutcome::Filled(b) => match header_verdict(b@) {
                    HeaderVerdict::Reject(e) => final(self).state == ConnState::AwaitHeader && r
                        == Step::Done(Err(e)),
                    HeaderVerdict::Info { width, height } => final(self).state
                        == ConnState::AwaitHeader && r == Step::Done(
                        Ok(Received::DimensionUpdate { width, height }),
                    ),
                    HeaderVerdict::Payload(h) => final(self).state == ConnState::AwaitPayload(h)
                        && r == Step::ReadPayload(h.size as usize),
                },
            },
    {
        match outcome {
            ReadOutcome::Failed => {
                self.state = ConnState::Disconnected;
                Step::Done(Err(ProtocolError::Io))
            },
            ReadOutcome::Eof(n) => {
                if n == 0 {
                    Step::Done(Ok(Received::NoData))
                } else {
                    self.state = ConnState::Disconnected;
                    Step::Done(Err(ProtocolError::ConnectionClosed))
                }
            },
            ReadOutcome::Filled(bytes) => {
                let header = match PacketHeader::from_bytes(bytes.as_slice()) {
                    Ok(h) => h,
                    Err(e) => return Step::Done(Err(e)),
                };
                match header.validate() {
                    Ok(()) => {},
                    Err(e) => return Step::Done(Err(e)),
                }
                if header.is_info_packet() {
                    return Step::Done(
                        Ok(Received::DimensionUpdate { width: header.width, height: header.height }),
                    );
                }
                self.state = ConnState::AwaitPayload(header);
                Step::ReadPayload(header.size as usize)
            },
        }
    }

    /// Takes the outcome of the payload read. An end of stream or a failure
    /// closes the connection; otherwise the next bytes are a header again, and
    /// the payload is delivered as a frame if it passes the frame checks.
    pub fn on_payload(&mut self, outcome: ReadOutcome) -> (r: Result<Received, ProtocolError>)
        requires
            old(self).state is AwaitPayload,
        ensures
            match outcome {
                ReadOutcome::Failed => final(self).state == ConnState::Disconnected && r == Err::<
                    Received,
                    ProtocolError,
                >(ProtocolError::Io),
                ReadOutcome::Eof(_) => final(self).state == ConnState::Disconnected && r == Err::<
                    Received,
                    ProtocolError,
                >(ProtocolError::ConnectionClosed),
                ReadOutcome::Filled(d) => final(self).state == ConnState::AwaitHeader && match
                    payload_verdict(pending_header(old(self).state), d@.len()) {
                    Err(e) => r == Err::<Received, ProtocolError>(e),
                    Ok(_) => r matches Ok(Received::Frame(f)) && f.header == pending_header(
                        old(self).state,
                    ) && f.data@ == d@,
                },
            },
    {
        let header = match self.state {
            ConnState::AwaitPayload(h) => h,
            _ => return Err(ProtocolError::NotConnected),
        };
        match outcome {
            ReadOutcome::Failed => {
                self.state = ConnState::Disconnected;
                Err(ProtocolError::Io)
            },
            ReadOutcome::Eof(_) => {
                self.state = ConnState::Disconnected;
                Err(ProtocolError::ConnectionClosed)
            },
            ReadOutcome::Filled(data) => {
                self.state = ConnState::AwaitHeader;
                let frame = match FrameData::new(header, data) {
                    Ok(f) => f,
                    Err(e) => return Err(e),
                };
                match frame.validate() {
                    Ok(()) => Ok(Received::Frame(frame)),
                    Err(e) => Err(e),
                }
            },
        }
    }

    /// Starts a send: `NotConnected` when there is no stream.
    pub fn begin_send(&self) -> (r: Result<(), ProtocolError>)
        ensures
            r == (if self.state is Disconnected {
                Err(ProtocolError::NotConnected)
            } else {
                Ok(())
            }),
    {
        match self.state {
            ConnState::Disconnected => Err(ProtocolError::NotConnected),
            _ => Ok(()),
        }
    }

    /// Takes the outcome of writing and flushing a command: a failure is a
    /// fatal write error and closes the connection.
    pub fn on_sent(&mut self, written: bool) -> (r: Result<(), ProtocolError>)
        ensures
            written ==> final(self).state == old(self).state && r == Ok::<(), ProtocolError>(()),
            !written ==> final(self).state == ConnState::Disconnected && r == Err::<
                (),
                ProtocolError,
            >(ProtocolError::Io),
    {
        if written {
            Ok(())
        } else {
            self.state = ConnState::Disconnected;
            Err(ProtocolError::Io)
        }
    }
}

/// A valid info packet announces its dimensions and asks for no payload read,
/// whatever else its header holds.
pub proof fn lemma_info_packet_needs_no_payload(h: PacketHeader)
    requires
        is_valid_header(h),
        h.size == 0,
    ensures
        header_verdict(header_bytes(h)) == (HeaderVerdict::Info { width: h.width, height: h.height }),
{
    lemma_header_round_trip(h);
}

} // verus!
