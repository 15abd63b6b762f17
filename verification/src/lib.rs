//! Drive a Minitel videotex terminal over a byte-oriented serial channel.
//!
//! - [`videotex`] and [`protocol`] hold the vocabulary of the terminal: its
//!   control codes, attribute codes, function keys and protocol messages.
//! - [`glyph`] maps Unicode to the three glyph sets and back, with the
//!   help of [`unicode`] for accented letters.
//! - [`stroke`], [`reply`] and [`negotiate`] decode what the terminal
//!   sends, byte by byte, and decide what to do next.
//! - [`session`] runs the exchanges over a channel, and [`render`] and
//!   [`backend`] draw a grid of styled cells with as few bytes as it takes.
//! - [`inbox`] queues the bytes of channels that deliver whole messages.

use vstd::prelude::*;

pub mod backend;
pub mod error;
pub mod glyph;
pub mod inbox;
pub mod negotiate;
pub mod protocol;
pub mod render;
pub mod reply;
pub mod session;
pub mod stroke;
pub mod unicode;
pub mod videotex;

verus! {

/// A value that can be sent to the terminal as a sequence of bytes.
pub trait MinitelMessage: Sized {
    /// Whether the value has an encoding on the wire.
    spec fn wf(self) -> bool;

    /// The bytes that stand for the value on the wire, escape prefix included.
    spec fn bytes(self) -> Seq<u8>;

    /// Tests whether the value has an encoding on the wire.
    fn is_wf(&self) -> (b: bool)
        ensures
            b == self.wf(),
    ;

    /// Serialises the value.
    fn message(self) -> (m: Vec<u8>)
        requires
            self.wf(),
        ensures
            m@ == self.bytes(),
    ;
}

/// A value that is sent as a sequence of bytes of a fixed length.
pub trait IntoSequence<const N: usize>: Sized {
    /// The bytes that stand for the value on the wire, escape prefix included.
    spec fn wire(self) -> Seq<u8>;

    /// Serialises the value.
    fn sequence(self) -> (m: [u8; N])
        ensures
            m@ == self.wire(),
    ;
}

} // verus!
