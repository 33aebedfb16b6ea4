//! The poll-descriptor record and its wire-shaped image.
//!
//! A caller that wants multiplexed readiness waiting instead of blocking
//! reads and writes asks the native layer to fill OS poll descriptors.
//! The record here mirrors the native one field for field; the two
//! marshaling functions convert between them and are proved exact.

use vstd::prelude::*;

verus! {

/// The wire shape of one OS poll descriptor as the native interface
/// exchanges it.
#[allow(non_camel_case_types)]
#[derive(Clone, Copy, Debug, PartialEq, Eq, Structural)]
pub struct pollfd {
    /// The OS file descriptor.
    pub fd: i32,
    /// The readiness events the caller asks to wait for.
    pub events: i32,
    /// The readiness events the OS reported.
    pub revents: i32,
}

/// One OS poll descriptor: constructed fresh for each poll cycle, handed
/// to the native layer to fill, and read back afterwards.
#[derive(Clone, Copy, Debug, PartialEq, Eq, Structural, Default)]
pub struct PollFd {
    /// The OS file descriptor.
    pub fd: i32,
    /// The readiness events the caller asks to wait for.
    pub events: i32,
    /// The readiness events the OS reported.
    pub revents: i32,
}

impl PollFd {
    /// Writes the descriptor into its wire shape, every field as it
    /// stands.
    pub fn to_raw(&self) -> (r: pollfd)
        ensures
            r.fd == self.fd,
            r.events == self.events,
            r.revents == self.revents,
    {
        pollfd { fd: self.fd, events: self.events, revents: self.revents }
    }

    /// Takes every field back from the wire shape the native layer
    /// filled.
    pub fn update_from_raw(&mut self, raw_pfd: pollfd)
        ensures
            final(self).fd == raw_pfd.fd,
            final(self).events == raw_pfd.events,
            final(self).revents == raw_pfd.revents,
    {
        self.fd = raw_pfd.fd;
        self.events = raw_pfd.events;
        self.revents = raw_pfd.revents;
    }
}

} // verus!
