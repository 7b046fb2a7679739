//! The I/O bridge: a lossless round-trip adapter between [`Error`] and a
//! generic I/O-style error channel of an "other/unspecified" category.
//!
//! `into_io` wraps an [`Error`], unchanged, as the payload of an
//! [`IoError`]; `decode_io` unwraps that payload if it is exactly an
//! [`Error`], and otherwise classifies the foreign value as a `Decode`
//! failure with the whole I/O error kept as the cause.

use vstd::prelude::*;
use crate::error::Cause;
use crate::error::Error;
use crate::error::Kind;

verus! {

/// A generic I/O-style error of the "other/unspecified" category: an
/// opaque payload that is either this crate's own [`Error`], kept whole,
/// or some foreign displayable message.
#[derive(Debug)]
pub enum IoError {
    /// The payload is this crate's own error, kept whole.
    Wrapped(Box<Error>),
    /// A foreign failure, carried as its displayable text.
    Other(String),
}

impl IoError {
    /// The displayable text of this I/O-style error: the payload's own
    /// text.
    pub open spec fn render_spec(&self) -> Seq<char>
        decreases self,
    {
        match self {
            IoError::Wrapped(e) => e.render_spec(),
            IoError::Other(m) => m@,
        }
    }

    /// Builds the displayable text of this I/O-style error.
    pub fn render(&self) -> (r: String)
        ensures
            r@ == self.render_spec(),
        decreases self,
    {
        match self {
            IoError::Wrapped(e) => e.render(),
            IoError::Other(m) => m.clone(),
        }
    }
}

/// What `into_io` returns: the error, kept whole, as the payload.
pub open spec fn spec_into_io(e: Error) -> IoError {
    IoError::Wrapped(Box::new(e))
}

/// Wraps the error, unchanged, as the payload of a generic I/O-style
/// error. No information is discarded.
pub fn into_io(e: Error) -> (r: IoError)
    ensures
        r == spec_into_io(e),
{
    IoError::Wrapped(Box::new(e))
}

/// What `decode_io` returns: the wrapped error itself, unwrapped and
/// unchanged, when the payload is this crate's own error; otherwise a new
/// `Decode`-kind error whose cause is the whole foreign I/O error.
pub open spec fn spec_decode_io(e: IoError) -> Error {
    match e {
        IoError::Wrapped(inner) => *inner,
        IoError::Other(_) => Error::spec_new(Kind::Decode, Some(Cause::Io(Box::new(e))), None),
    }
}

/// Recovers an [`Error`] from the generic I/O channel. If the payload is
/// exactly this crate's own error it is returned as-is — no nested
/// wrapping, kind, cause and URL fully preserved. Otherwise the foreign
/// I/O error becomes the cause of a new `Decode`-kind error.
pub fn decode_io(e: IoError) -> (r: Error)
    ensures
        r == spec_decode_io(e),
        e matches IoError::Wrapped(inner) ==> r == *inner,
        e matches IoError::Other(_) ==> r.kind_of() == Kind::Decode
            && r.source_of() == Some(Cause::Io(Box::new(e)))
            && r.url_of() is None,
{
    match e {
        IoError::Wrapped(inner) => *inner,
        IoError::Other(text) => crate::error::decode(Cause::Io(Box::new(IoError::Other(text)))),
    }
}

/// Round trip: decoding the bridge value produced from an error yields
/// that error again, unchanged — the bridge is loss-free and adds no
/// wrapping layer.
pub proof fn lemma_io_round_trip(e: Error)
    ensures
        spec_decode_io(spec_into_io(e)) == e,
{
}

} // verus!
