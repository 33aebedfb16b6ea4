//! Safe, verified core of a binding to a native sound I/O device interface.
//!
//! The native connection itself (open, close, start, stop, read, write,
//! polling, volume) is a set of foreign calls that an unverified shim makes;
//! everything that can be stated and checked about the binding lives here:
//! the flag constants and the stream-direction mode, the bit-depth to
//! byte-width mapping, device-name preparation, the wire-shaped parameter
//! record and its marshaling, the poll-descriptor record, the close-once
//! guard for the connection resource, and the accounting of a chunked
//! write loop.

use vstd::prelude::*;

pub mod device;
pub mod params;
pub mod poll;
pub mod session;

verus! {

/// Flag selecting the play (output) direction of a stream.
pub const SIO_PLAY: u32 = 1;

/// Flag selecting the record (input) direction of a stream.
pub const SIO_REC: u32 = 2;

/// Underrun/overrun policy: silently ignore.
pub const SIO_IGNORE: u32 = 0;

/// Underrun/overrun policy: resynchronize the stream.
pub const SIO_SYNC: u32 = 1;

/// Underrun/overrun policy: treat as an error.
pub const SIO_ERROR: u32 = 2;

/// Native byte-order flag value meaning little-endian; the targets this
/// binding supports are little-endian, so it is also the native order.
pub const SIO_LE_NATIVE: u32 = 1;

/// Largest value the volume control accepts.
pub const SIO_MAXVOL: u32 = 127;

/// Opaque marker for the native connection; the unverified shim holds the
/// native library's handle as a pointer to this type and never reads it.
#[allow(non_camel_case_types)]
pub struct sio_hdl {
    _private: [u8; 0],
}

/// Stream direction(s) of a device connection: play, record, or both.
#[derive(Clone, Copy, Debug, PartialEq, Eq, Structural)]
pub struct Mode(pub u32);

impl Mode {
    /// A valid mode value: play, record, or their combination; no other
    /// value names a stream direction.
    pub open spec fn wf(self) -> bool {
        self.0 == SIO_PLAY || self.0 == SIO_REC || self.0 == (SIO_PLAY | SIO_REC)
    }

    /// The play (output) direction.
    pub fn play() -> (m: Mode)
        ensures
            m.0 == SIO_PLAY,
            m.wf(),
    {
        Mode(SIO_PLAY)
    }

    /// The record (input) direction.
    pub fn rec() -> (m: Mode)
        ensures
            m.0 == SIO_REC,
            m.wf(),
    {
        Mode(SIO_REC)
    }

    /// Combines two directions; the result carries the bitwise or of the
    /// two flag values, so play and record can be requested together.
    /// Combining valid modes yields a valid mode.
    pub fn bitor(self, rhs: Mode) -> (m: Mode)
        ensures
            m.0 == self.0 | rhs.0,
            self.wf() && rhs.wf() ==> m.wf(),
    {
        proof {
            lemma_mode_or_closed(self.0, rhs.0);
        }
        Mode(self.0 | rhs.0)
    }
}

/// The set of valid mode values is closed under bitwise or.
proof fn lemma_mode_or_closed(a: u32, b: u32)
    ensures
        (a == SIO_PLAY || a == SIO_REC || a == (SIO_PLAY | SIO_REC)) && (b == SIO_PLAY || b
            == SIO_REC || b == (SIO_PLAY | SIO_REC)) ==> ((a | b) == SIO_PLAY || (a | b) == SIO_REC
            || (a | b) == (SIO_PLAY | SIO_REC)),
{
    assert((a == 1 || a == 2 || a == (1u32 | 2u32)) && (b == 1 || b == 2 || b == (1u32 | 2u32))
        ==> ((a | b) == 1 || (a | b) == 2 || (a | b) == (1u32 | 2u32))) by (bit_vector);
}

/// The full-duplex combination of the two direction flags is their bitwise
/// or, and is distinct from either direction alone.
pub proof fn lemma_duplex_mode_distinct()
    ensures
        SIO_PLAY | SIO_REC == 3,
        SIO_PLAY | SIO_REC != SIO_PLAY,
        SIO_PLAY | SIO_REC != SIO_REC,
{
    assert((1u32 | 2u32) == 3u32) by (bit_vector);
}

/// Number of bytes per sample for a given bit depth: one byte up to 8 bits,
/// two bytes up to 16 bits, four bytes beyond.
pub open spec fn spec_bps(bits: u32) -> u32 {
    if bits <= 8 {
        1
    } else if bits <= 16 {
        2
    } else {
        4
    }
}

/// Maps a sample bit depth to the byte width that holds it.
pub fn sio_bps(bits: u32) -> (bps: u32)
    ensures
        bps == spec_bps(bits),
{
    if bits <= 8 {
        1
    } else if bits <= 16 {
        2
    } else {
        4
    }
}

} // verus!
