//! Register-level bus transactions, as plain values.
//!
//! The library never touches the bus. It hands out `BusRequest`s; the caller
//! performs each one on the chip's SPI device and reports the outcome as a
//! `BusReply`.
use vstd::prelude::*;

verus! {

/// Longest frame of any request: an address byte and up to three data bytes.
pub const MAX_FRAME: usize = 4;

/// Most registers that one read request covers.
pub const MAX_READ_COUNT: u8 = 3;

/// One transaction on a chip's SPI device.
#[derive(Clone, Copy, Debug, PartialEq, Eq, Structural)]
pub enum BusRequest {
    /// Write `value` to the register whose write address is `addr`:
    /// the frame `[addr, value]` is sent.
    Write { addr: u8, value: u8 },
    /// Read `count` consecutive registers starting at read address `addr`:
    /// the frame `[addr, 0, .., 0]` with `count` data bytes is exchanged in place.
    Read { addr: u8, count: u8 },
}

/// What came of a `BusRequest`.
#[derive(Clone, Copy, Debug)]
pub enum BusReply {
    /// A write completed.
    Written,
    /// A read completed; the first `len` bytes of `frame` are the frame as it
    /// stands after the in-place exchange, address byte first.
    Transferred { frame: [u8; MAX_FRAME], len: usize },
    /// The bus reported an error.
    Failed,
}

impl BusRequest {
    /// Whether the frame of this request fits in `MAX_FRAME` bytes.
    pub open spec fn fits(self) -> bool {
        match self {
            BusRequest::Write { .. } => true,
            BusRequest::Read { count, .. } => count <= MAX_READ_COUNT,
        }
    }

    /// The bytes sent on the bus for this request.
    pub open spec fn spec_frame(self) -> Seq<u8> {
        match self {
            BusRequest::Write { addr, value } => seq![addr, value],
            BusRequest::Read { addr, count } => seq![addr] + Seq::new(count as nat, |i: int| 0u8),
        }
    }

    /// Whether the frame of this request fits in `MAX_FRAME` bytes.
    pub fn frame_fits(&self) -> (r: bool)
        ensures
            r == self.fits(),
    {
        match *self {
            BusRequest::Write { .. } => true,
            BusRequest::Read { count, .. } => count <= MAX_READ_COUNT,
        }
    }

    /// Builds the frame to send for this request: its bytes, zero-padded to
    /// `MAX_FRAME`, and its length.
    pub fn frame(&self) -> (r: ([u8; MAX_FRAME], usize))
        requires
            self.fits(),
        ensures
            r.1 == self.spec_frame().len(),
            r.0@ == self.spec_frame() + Seq::new((MAX_FRAME - r.1) as nat, |i: int| 0u8),
    {
        match *self {
            BusRequest::Write { addr, value } => {
                let r = ([addr, value, 0u8, 0u8], 2usize);
                assert(r.0@ =~= self.spec_frame() + Seq::new((MAX_FRAME - r.1) as nat, |i: int| 0u8));
                r
            },
            BusRequest::Read { addr, count } => {
                let r = ([addr, 0u8, 0u8, 0u8], count as usize + 1);
                assert(r.0@ =~= self.spec_frame() + Seq::new((MAX_FRAME - r.1) as nat, |i: int| 0u8));
                r
            },
        }
    }
}

/// The data byte of a one-register read, if `reply` is a completed exchange
/// of a two-byte frame.
pub open spec fn single_read_value(reply: BusReply) -> Option<u8> {
    match reply {
        BusReply::Transferred { frame, len } => if len == 2 {
            Some(frame@[1])
        } else {
            None
        },
        _ => None,
    }
}

/// Extracts the data byte of a one-register read.
pub fn single_read_byte(reply: &BusReply) -> (r: Option<u8>)
    ensures
        r == single_read_value(*reply),
{
    match reply {
        BusReply::Transferred { frame, len } => if *len == 2 {
            Some(frame[1])
        } else {
            None
        },
        _ => None,
    }
}

} // verus!
