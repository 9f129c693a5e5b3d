//! Settings and connection facts shared by the client's parts.

use vstd::prelude::*;
use crate::session::Received;

verus! {

/// Where to connect, how to present, and what is known of the connection.
#[derive(Debug, Clone)]
pub struct AppState {
    pub connected: bool,
    pub server: String,
    pub port: u16,
    pub display_width: u32,
    pub display_height: u32,
    pub fullscreen: bool,
    pub vsync: bool,
}

impl Default for AppState {
    /// Local server on port 8080, a 1920 by 1080 display, windowed, not
    /// connected.
    fn default() -> (r: AppState)
        ensures
            !r.connected,
            r.server@ == "127.0.0.1"@,
            r.port == 8080,
            r.display_width == 1920,
            r.display_height == 1080,
            !r.fullscreen,
            !r.vsync,
    {
        AppState {
            connected: false,
            server: "127.0.0.1".to_owned(),
            port: 8080,
            display_width: 1920,
            display_height: 1080,
            fullscreen: false,
            vsync: false,
        }
    }
}

impl AppState {
    /// Takes note of what a receive delivered: an info packet sets the
    /// display dimensions; nothing else changes the state.
    pub fn observe(&mut self, received: &Received)
        ensures
            match *received {
                Received::DimensionUpdate { width, height } => final(self).display_width == width
                    && final(self).display_height == height,
                _ => final(self).display_width == old(self).display_width
                    && final(self).display_height == old(self).display_height,
            },
            final(self).connected == old(self).connected,
            final(self).server@ == old(self).server@,
            final(self).port == old(self).port,
            final(self).fullscreen == old(self).fullscreen,
            final(self).vsync == old(self).vsync,
    {
        match received {
            Received::DimensionUpdate { width, height } => {
                self.display_width = *width;
                self.display_height = *height;
            },
            _ => {},
        }
    }
}

} // verus!
