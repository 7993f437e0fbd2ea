//! Error values returned by the protocol operations.

use vstd::prelude::*;

verus! {

/// `std::io::Error`, carried through as an opaque value.
#[verifier::external_type_specification]
#[verifier::external_body]
pub struct ExIoError(std::io::Error);

/// `std::string::FromUtf8Error`, carried through as an opaque value.
#[verifier::external_type_specification]
#[verifier::external_body]
pub struct ExFromUtf8Error(std::string::FromUtf8Error);

/// Errors that can occur during HDC operations.
#[derive(Debug)]
pub enum HdcError {
    /// The transport failed while reading, writing or connecting.
    Io(std::io::Error),
    /// Malformed protocol data: a bad frame length, a handshake that is too
    /// short, an address that does not parse, a failure reported by the server.
    Protocol(String),
    /// The handshake could not be completed.
    HandshakeFailed(String),
    /// An operation was attempted before the handshake completed.
    NotConnected,
    /// The handshake banner does not start with the magic literal; carries
    /// the twelve banner bytes as received.
    InvalidBanner(Vec<u8>),
    /// A payload does not fit in one frame.
    BufferError(String),
    /// A command was rejected.
    CommandFailed(String),
    /// The peer did not answer in time.
    Timeout,
    /// No device with the given identity.
    DeviceNotFound(String),
    /// A payload that should be text is not UTF-8.
    Utf8(std::string::FromUtf8Error),
}

/// The mathematical content of an [`HdcError`]: texts as character
/// sequences, bytes as a byte sequence, the cause of an I/O failure as it
/// is. The cause of a text-decoding failure has no content of its own: it
/// only ever comes from decoding.
pub enum HdcErrorView {
    Io(std::io::Error),
    Protocol(Seq<char>),
    HandshakeFailed(Seq<char>),
    NotConnected,
    InvalidBanner(Seq<u8>),
    BufferError(Seq<char>),
    CommandFailed(Seq<char>),
    Timeout,
    DeviceNotFound(Seq<char>),
    Utf8,
}

impl View for HdcError {
    type V = HdcErrorView;

    open spec fn view(&self) -> HdcErrorView {
        match self {
            HdcError::Io(e) => HdcErrorView::Io(*e),
            HdcError::Protocol(m) => HdcErrorView::Protocol(m@),
            HdcError::HandshakeFailed(m) => HdcErrorView::HandshakeFailed(m@),
            HdcError::NotConnected => HdcErrorView::NotConnected,
            HdcError::InvalidBanner(b) => HdcErrorView::InvalidBanner(b@),
            HdcError::BufferError(m) => HdcErrorView::BufferError(m@),
            HdcError::CommandFailed(m) => HdcErrorView::CommandFailed(m@),
            HdcError::Timeout => HdcErrorView::Timeout,
            HdcError::DeviceNotFound(m) => HdcErrorView::DeviceNotFound(m@),
            HdcError::Utf8(_) => HdcErrorView::Utf8,
        }
    }
}

} // verus!
