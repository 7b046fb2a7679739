//! The error type itself: its closed kind taxonomy, its cause chain, and
//! the fixed set of constructors that are the only way to produce a value.

use vstd::prelude::*;
use crate::bridge::IoError;
use crate::render::kind_text;
use crate::render::render_kind;
use crate::render::url_suffix;

verus! {

/// An HTTP status code, kept as its three-digit number.
#[derive(Clone, Copy, Debug, PartialEq, Eq, Structural)]
pub struct StatusCode(pub u16);

impl StatusCode {
    /// True iff the code is in the client-error class (4xx).
    pub fn is_client_error(&self) -> (r: bool)
        ensures
            r == (400 <= self.0 < 500),
    {
        400 <= self.0 && self.0 < 500
    }

    /// True iff the code is in the server-error class (5xx).
    pub fn is_server_error(&self) -> (r: bool)
        ensures
            r == (500 <= self.0 < 600),
    {
        500 <= self.0 && self.0 < 600
    }

    /// The code as a plain number.
    pub fn as_u16(&self) -> (r: u16)
        ensures
            r == self.0,
    {
        self.0
    }
}

/// A URL, kept in its textual form.
#[derive(Debug)]
pub struct Url(pub String);

impl View for Url {
    type V = Seq<char>;

    open spec fn view(&self) -> Seq<char> {
        self.0@
    }
}

impl Url {
    /// The textual form of the URL.
    pub fn as_str(&self) -> (r: &str)
        ensures
            r@ == self@,
    {
        self.0.as_str()
    }
}

/// Which stage of the request lifecycle produced a failure.
///
/// The set is closed: no constructor accepts a caller-supplied kind, so
/// downstream matching over these discriminants is exhaustive.
#[derive(Clone, Copy, Debug)]
pub enum Kind {
    /// Malformed client or request configuration.
    Builder,
    /// Failure while sending the request.
    Request,
    /// Failure while following a redirect.
    Redirect,
    /// The response status was surfaced as a failure by policy.
    Status(StatusCode),
    /// Failure reading or writing a request or response body.
    Body,
    /// Failure decoding a response body into a typed value.
    Decode,
}

/// One link of a cause chain: an underlying fault that an [`Error`] can
/// carry. A cause may itself nest further causes, forming an unbounded
/// chain; each link owns the next.
///
/// `TimedOut` and `BlockingClientInAsyncContext` are zero-data marker
/// causes, present only so that other code can test, by identity, "was
/// this a timeout"; they are meant to be attached only by the transport
/// and blocking-adapter collaborators.
#[derive(Debug)]
pub enum Cause {
    /// A displayable message from a collaborator.
    Message(String),
    /// Marker: the operation timed out.
    TimedOut,
    /// Marker: a blocking client was used inside an async context.
    BlockingClientInAsyncContext,
    /// An [`Error`] of this crate, wrapped as the cause of an outer one.
    Wrapped(Box<Error>),
    /// A generic I/O-style error, kept whole as a cause.
    Io(Box<IoError>),
}

impl Cause {
    /// The displayable text of this cause: a wrapped value renders as
    /// its own full text, a marker as its fixed phrase.
    pub open spec fn render_spec(&self) -> Seq<char>
        decreases self,
    {
        match self {
            Cause::Message(m) => m@,
            Cause::TimedOut => "operation timed out"@,
            Cause::BlockingClientInAsyncContext => "blocking Client used inside a Future context"@,
            Cause::Wrapped(e) => e.render_spec(),
            Cause::Io(io) => io.render_spec(),
        }
    }

    /// Builds the displayable text of this cause.
    pub fn render(&self) -> (r: String)
        ensures
            r@ == self.render_spec(),
        decreases self,
    {
        match self {
            Cause::Message(m) => m.clone(),
            Cause::TimedOut => String::from_str("operation timed out"),
            Cause::BlockingClientInAsyncContext => String::from_str(
                "blocking Client used inside a Future context",
            ),
            Cause::Wrapped(e) => e.render(),
            Cause::Io(io) => io.render(),
        }
    }
}

/// The one heap-allocated record behind an [`Error`].
#[derive(Debug)]
struct Inner {
    kind: Kind,
    source: Option<Cause>,
    url: Option<Url>,
}

/// The error that may occur when processing a request.
///
/// The value is a single pointer-sized handle to one heap allocation
/// holding the kind, the optional cause and the optional URL, so that it
/// propagates cheaply through deeply nested fallible call chains.
///
/// Construction is closed: the fields are private, and only the fixed
/// constructor set of this module can produce a value, so the kind
/// taxonomy stays exhaustive for downstream matching.
#[derive(Debug)]
pub struct Error {
    inner: Box<Inner>,
}

impl Error {
    /// Which stage of the request lifecycle failed.
    pub closed spec fn kind_of(&self) -> Kind {
        self.inner.kind
    }

    /// The direct cause, if one was attached at construction.
    pub closed spec fn source_of(&self) -> Option<Cause> {
        self.inner.source
    }

    /// The last URL attached, if any.
    pub closed spec fn url_of(&self) -> Option<Url> {
        self.inner.url
    }

    /// The error with the given kind, cause and URL. Constructors pin
    /// their result to this shape.
    pub closed spec fn spec_new(kind: Kind, source: Option<Cause>, url: Option<Url>) -> Error {
        Error { inner: Box::new(Inner { kind, source, url }) }
    }

    /// Whether the **direct** cause is the timeout marker.
    pub open spec fn is_timeout_spec(&self) -> bool {
        self.source_of() matches Some(Cause::TimedOut)
    }

    fn new(kind: Kind, source: Option<Cause>) -> (r: Error)
        ensures
            r == Error::spec_new(kind, source, None),
    {
        Error { inner: Box::new(Inner { kind, source, url: None }) }
    }

    /// Returns a possible URL related to this error.
    pub fn url(&self) -> (r: Option<&Url>)
        ensures
            r is Some <==> self.url_of() is Some,
            r matches Some(u) ==> self.url_of() == Some(*u),
    {
        self.inner.url.as_ref()
    }

    /// The kind of this error.
    pub fn kind(&self) -> (r: Kind)
        ensures
            r == self.kind_of(),
    {
        self.inner.kind
    }

    /// Returns true if the error came from client or request configuration.
    pub fn is_builder(&self) -> (r: bool)
        ensures
            r == (self.kind_of() is Builder),
    {
        match self.inner.kind {
            Kind::Builder => true,
            _ => false,
        }
    }

    /// Returns true if the error came from following a redirect.
    pub fn is_redirect(&self) -> (r: bool)
        ensures
            r == (self.kind_of() is Redirect),
    {
        match self.inner.kind {
            Kind::Redirect => true,
            _ => false,
        }
    }

    /// Returns true if the error came from a response status surfaced as
    /// a failure by policy.
    pub fn is_status(&self) -> (r: bool)
        ensures
            r == (self.kind_of() is Status),
    {
        match self.inner.kind {
            Kind::Status(_) => true,
            _ => false,
        }
    }

    /// Returns true if the **direct** cause — one level only, not the
    /// full transitive chain — is the timeout marker. A timeout nested
    /// two or more links deep is deliberately not reported as a timeout.
    pub fn is_timeout(&self) -> (r: bool)
        ensures
            r == self.is_timeout_spec(),
    {
        match &self.inner.source {
            Some(Cause::TimedOut) => true,
            _ => false,
        }
    }

    /// Returns the status code iff the kind is `Status`.
    pub fn status(&self) -> (r: Option<StatusCode>)
        ensures
            r == (match self.kind_of() {
                Kind::Status(code) => Some(code),
                _ => None::<StatusCode>,
            }),
    {
        match self.inner.kind {
            Kind::Status(code) => Some(code),
            _ => None,
        }
    }

    /// Sets or overwrites the URL; the kind and the cause are untouched.
    /// For use while the error propagates upward, before it reaches its
    /// eventual reader.
    pub(crate) fn with_url(self, url: Url) -> (r: Error)
        ensures
            r == Error::spec_new(self.kind_of(), self.source_of(), Some(url)),
            r.kind_of() == self.kind_of(),
            r.source_of() == self.source_of(),
            r.url_of() == Some(url),
    {
        let inner = *self.inner;
        Error {
            inner: Box::new(
                Inner { kind: inner.kind, source: inner.source, url: Some(url) },
            ),
        }
    }

    /// Returns the direct cause of this error, if one was attached.
    pub fn source(&self) -> (r: Option<&Cause>)
        ensures
            r is Some <==> self.source_of() is Some,
            r matches Some(c) ==> self.source_of() == Some(*c),
    {
        self.inner.source.as_ref()
    }

    /// The full rendered text, composed in order: the kind's phrase, then
    /// `" for url (<url>)"` if a URL is attached, then `": <cause text>"`
    /// if a cause is attached.
    pub open spec fn render_spec(&self) -> Seq<char>
        decreases self,
    {
        kind_text(self.kind_of()) + url_suffix(self.url_of()) + (
        match self.source_of() {
            Some(c) => ": "@ + c.render_spec(),
            None => Seq::<char>::empty(),
        })
    }

    /// Builds the full rendered text of this error.
    pub fn render(&self) -> (r: String)
        ensures
            r@ == self.render_spec(),
        decreases self,
    {
        let mut s = render_kind(&self.inner.kind);
        match &self.inner.url {
            Some(u) => {
                s.append(" for url (");
                s.append(u.as_str());
                s.append(")");
            },
            None => {},
        }
        match &self.inner.source {
            Some(c) => {
                s.append(": ");
                let t = c.render();
                s.append(t.as_str());
            },
            None => {},
        }
        proof {
            assert(s@ =~= self.render_spec());
        }
        s
    }

    /// Wraps this error, unchanged, as the payload of a generic
    /// I/O-style error.
    pub fn into_io(self) -> (r: IoError)
        ensures
            r == crate::bridge::spec_into_io(self),
    {
        crate::bridge::into_io(self)
    }
}

/// The components of an error built by the constructors: an error pinned
/// to [`Error::spec_new`] reports exactly the kind, cause and URL it was
/// built with. In particular, constructing with a cause yields a present
/// source and constructing without one yields none.
pub proof fn lemma_new_components(kind: Kind, source: Option<Cause>, url: Option<Url>)
    ensures
        Error::spec_new(kind, source, url).kind_of() == kind,
        Error::spec_new(kind, source, url).source_of() == source,
        Error::spec_new(kind, source, url).url_of() == url,
{
}

/// Timeout detection is shallow: it inspects the direct cause only. An
/// error whose direct cause is the timeout marker is a timeout; an error
/// whose direct cause merely wraps another error is not, however deep a
/// timeout sits further down the chain.
pub proof fn lemma_timeout_is_shallow(direct: Error, nested: Error)
    requires
        direct.source_of() == Some(Cause::TimedOut),
        nested.source_of() matches Some(Cause::Wrapped(_)),
    ensures
        direct.is_timeout_spec(),
        !nested.is_timeout_spec(),
{
}

/// A configuration failure: kind `Builder`, the given cause, no URL.
pub fn builder(e: Cause) -> (r: Error)
    ensures
        r == Error::spec_new(Kind::Builder, Some(e), None),
        r.kind_of() == Kind::Builder,
        r.source_of() == Some(e),
        r.url_of() is None,
{
    Error::new(Kind::Builder, Some(e))
}

/// A body failure: kind `Body`, the given cause, no URL.
pub fn body(e: Cause) -> (r: Error)
    ensures
        r == Error::spec_new(Kind::Body, Some(e), None),
        r.kind_of() == Kind::Body,
        r.source_of() == Some(e),
        r.url_of() is None,
{
    Error::new(Kind::Body, Some(e))
}

/// A decoding failure: kind `Decode`, the given cause, no URL.
pub fn decode(e: Cause) -> (r: Error)
    ensures
        r == Error::spec_new(Kind::Decode, Some(e), None),
        r.kind_of() == Kind::Decode,
        r.source_of() == Some(e),
        r.url_of() is None,
{
    Error::new(Kind::Decode, Some(e))
}

/// A sending failure: kind `Request`, the given cause, no URL.
pub fn request(e: Cause) -> (r: Error)
    ensures
        r == Error::spec_new(Kind::Request, Some(e), None),
        r.kind_of() == Kind::Request,
        r.source_of() == Some(e),
        r.url_of() is None,
{
    Error::new(Kind::Request, Some(e))
}

/// A redirect loop: kind `Redirect`, a fixed descriptive cause, the URL
/// of the last stop.
pub fn loop_detected(url: Url) -> (r: Error)
    ensures
        r.kind_of() == Kind::Redirect,
        r.url_of() == Some(url),
        r.source_of() matches Some(Cause::Message(m)) && m@ == "infinite redirect loop detected"@,
{
    Error::new(
        Kind::Redirect,
        Some(Cause::Message(String::from_str("infinite redirect loop detected"))),
    ).with_url(url)
}

/// Too many redirect hops: kind `Redirect`, a fixed descriptive cause,
/// the URL of the last stop.
pub fn too_many_redirects(url: Url) -> (r: Error)
    ensures
        r.kind_of() == Kind::Redirect,
        r.url_of() == Some(url),
        r.source_of() matches Some(Cause::Message(m)) && m@ == "too many redirects"@,
{
    Error::new(
        Kind::Redirect,
        Some(Cause::Message(String::from_str("too many redirects"))),
    ).with_url(url)
}

/// A response status surfaced as a failure by policy: kind
/// `Status(status)`, no cause, the URL attached. The status-evaluation
/// collaborator only surfaces client-error and server-error classes.
pub fn status_code(url: Url, status: StatusCode) -> (r: Error)
    requires
        400 <= status.0 < 600,
    ensures
        r == Error::spec_new(Kind::Status(status), None, Some(url)),
        r.kind_of() == Kind::Status(status),
        r.source_of() is None,
        r.url_of() == Some(url),
{
    Error::new(Kind::Status(status), None).with_url(url)
}

/// A disallowed URL scheme: kind `Builder`, a fixed descriptive cause,
/// the offending URL attached.
pub fn url_bad_scheme(url: Url) -> (r: Error)
    ensures
        r.kind_of() == Kind::Builder,
        r.url_of() == Some(url),
        r.source_of() matches Some(Cause::Message(m)) && m@ == "URL scheme is not allowed"@,
{
    Error::new(
        Kind::Builder,
        Some(Cause::Message(String::from_str("URL scheme is not allowed"))),
    ).with_url(url)
}

} // verus!
