//! The negotiated-format parameter record and its wire-shaped image.
//!
//! The native interface exchanges a flat record describing the audio
//! format: bit depth, byte width, signedness, endianness, justification,
//! channel counts, rate, buffer sizing, the underrun/overrun policy, and a
//! reserved/magic tail that the caller must carry through untouched. The
//! record a caller works with keeps that tail in a value it cannot build
//! by hand, so it can only ever originate from a record the native layer
//! produced; the two marshaling functions here convert between the
//! caller's record and the wire shape, field for field, and are proved to
//! lose nothing.

use vstd::prelude::*;

verus! {

/// The wire shape of the parameter record, laid out as the native
/// interface defines it; the unverified shim copies it into the
/// equivalent C-layout struct for the foreign calls.
#[allow(non_camel_case_types)]
#[derive(Clone, Copy, Debug, PartialEq, Eq)]
pub struct sio_par {
    /// Bits per sample.
    pub bits: u32,
    /// Bytes per sample.
    pub bps: u32,
    /// Nonzero when samples are signed.
    pub sig: u32,
    /// Nonzero when samples are little-endian.
    pub le: u32,
    /// Nonzero when samples are justified to the most significant bit.
    pub msb: u32,
    /// Number of record channels.
    pub rchan: u32,
    /// Number of play channels.
    pub pchan: u32,
    /// Sample rate in frames per second.
    pub rate: u32,
    /// Requested buffer size in frames.
    pub bufsz: u32,
    /// Underrun/overrun policy.
    pub xrun: u32,
    /// Block size of one transfer round, in frames.
    pub round: u32,
    /// Application buffer size in frames.
    pub appbufsz: u32,
    /// Reserved padding, opaque to callers.
    pub __pad: [i32; 3],
    /// Protocol magic/version tag, opaque to callers.
    pub __magic: u32,
}

/// The reserved padding and the magic/version tag of a parameter record.
/// Callers cannot build a value of this type: every tail originates in a
/// record the native layer produced, and the marshaling below carries it
/// through unchanged.
#[derive(Clone, Copy, Debug, PartialEq, Eq)]
pub struct OpaqueTail {
    pub(crate) pad: [i32; 3],
    pub(crate) magic: u32,
}

impl OpaqueTail {
    /// The reserved padding words, as the native layer set them.
    pub closed spec fn pad(self) -> [i32; 3] {
        self.pad
    }

    /// The magic/version tag, as the native layer set it.
    pub closed spec fn magic(self) -> u32 {
        self.magic
    }
}

/// The tail holding the given padding and tag.
pub closed spec fn spec_tail(pad: [i32; 3], magic: u32) -> OpaqueTail {
    OpaqueTail { pad, magic }
}

/// The parameter record a caller works with. The meaningful fields are
/// open for selective overriding; the tail is opaque, so every record
/// traces back to one the native layer produced.
#[derive(Clone, Copy, Debug, PartialEq, Eq)]
pub struct Par {
    /// Bits per sample.
    pub bits: u32,
    /// Bytes per sample.
    pub bps: u32,
    /// Nonzero when samples are signed.
    pub sig: u32,
    /// Nonzero when samples are little-endian.
    pub le: u32,
    /// Nonzero when samples are justified to the most significant bit.
    pub msb: u32,
    /// Number of record channels.
    pub rchan: u32,
    /// Number of play channels.
    pub pchan: u32,
    /// Sample rate in frames per second.
    pub rate: u32,
    /// Requested buffer size in frames.
    pub bufsz: u32,
    /// Underrun/overrun policy.
    pub xrun: u32,
    /// Block size of one transfer round, in frames.
    pub round: u32,
    /// Application buffer size in frames.
    pub appbufsz: u32,
    /// The reserved/magic tail, carried through untouched.
    pub tail: OpaqueTail,
}

impl Par {
    /// The wire image of this record: every field in its wire position,
    /// the opaque tail included.
    pub open spec fn as_raw(self) -> sio_par {
        sio_par {
            bits: self.bits,
            bps: self.bps,
            sig: self.sig,
            le: self.le,
            msb: self.msb,
            rchan: self.rchan,
            pchan: self.pchan,
            rate: self.rate,
            bufsz: self.bufsz,
            xrun: self.xrun,
            round: self.round,
            appbufsz: self.appbufsz,
            __pad: self.tail.pad(),
            __magic: self.tail.magic(),
        }
    }

    /// Reads a record out of its wire shape, every field taken as it
    /// stands, the opaque tail included.
    pub fn from_raw(raw_par: sio_par) -> (p: Par)
        ensures
            p == spec_from_raw(raw_par),
            p.as_raw() == raw_par,
    {
        Par {
            bits: raw_par.bits,
            bps: raw_par.bps,
            sig: raw_par.sig,
            le: raw_par.le,
            msb: raw_par.msb,
            rchan: raw_par.rchan,
            pchan: raw_par.pchan,
            rate: raw_par.rate,
            bufsz: raw_par.bufsz,
            xrun: raw_par.xrun,
            round: raw_par.round,
            appbufsz: raw_par.appbufsz,
            tail: OpaqueTail { pad: raw_par.__pad, magic: raw_par.__magic },
        }
    }

    /// Writes the record into its wire shape for a native exchange.
    pub fn to_raw(&self) -> (r: sio_par)
        ensures
            r == self.as_raw(),
            spec_from_raw(r) == *self,
    {
        sio_par {
            bits: self.bits,
            bps: self.bps,
            sig: self.sig,
            le: self.le,
            msb: self.msb,
            rchan: self.rchan,
            pchan: self.pchan,
            rate: self.rate,
            bufsz: self.bufsz,
            xrun: self.xrun,
            round: self.round,
            appbufsz: self.appbufsz,
            __pad: self.tail.pad,
            __magic: self.tail.magic,
        }
    }
}

/// The record a wire image denotes: the inverse reading of `Par::as_raw`.
pub open spec fn spec_from_raw(r: sio_par) -> Par {
    Par {
        bits: r.bits,
        bps: r.bps,
        sig: r.sig,
        le: r.le,
        msb: r.msb,
        rchan: r.rchan,
        pchan: r.pchan,
        rate: r.rate,
        bufsz: r.bufsz,
        xrun: r.xrun,
        round: r.round,
        appbufsz: r.appbufsz,
        tail: spec_tail(r.__pad, r.__magic),
    }
}

/// Marshaling a record to the wire shape and reading it back returns the
/// record unchanged; in particular the opaque padding and magic tag
/// survive a set/get round trip byte for byte.
pub proof fn lemma_par_round_trip(p: Par)
    ensures
        spec_from_raw(p.as_raw()) == p,
{
}

/// Reading a wire image and writing it back yields the same image: the
/// marshaling adds and loses nothing in either direction.
pub proof fn lemma_raw_round_trip(r: sio_par)
    ensures
        spec_from_raw(r).as_raw() == r,
{
}

} // verus!
