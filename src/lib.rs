//! Client-side core of a frame-streaming display protocol: the fixed-size
//! header codec, the receive state machine that turns a byte stream into
//! validated frames, and the pixel conversions that prepare them for a
//! compositing surface.

pub mod protocol;
pub mod pixel;
pub mod frame;
pub mod session;
pub mod renderer;
pub mod state;

pub use frame::FrameData;
pub use protocol::{FrameFormat, HeaderFault, PacketHeader, ProtocolError, HEADER_SIZE, MAGIC, VERSION};
pub use renderer::FrameRenderer;
pub use session::{ConnState, ReadOutcome, Received, Session, Step};
pub use state::AppState;
