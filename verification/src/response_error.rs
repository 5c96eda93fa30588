//! Errors that the agent reports for a remote operation.

use crate::protocol::SocketAddress;
use std::io::ErrorKind;
use vstd::prelude::*;

verus! {

/// The kinds of I/O failure, in a form that can cross the control channel.
#[derive(Clone, Copy, Debug, PartialEq, Eq, Structural)]
pub enum ErrorKindInternal {
    NotFound,
    PermissionDenied,
    ConnectionRefused,
    ConnectionReset,
    HostUnreachable,
    NetworkUnreachable,
    ConnectionAborted,
    NotConnected,
    AddrInUse,
    AddrNotAvailable,
    NetworkDown,
    BrokenPipe,
    AlreadyExists,
    WouldBlock,
    NotADirectory,
    IsADirectory,
    DirectoryNotEmpty,
    ReadOnlyFilesystem,
    FilesystemLoop,
    StaleNetworkFileHandle,
    InvalidInput,
    InvalidData,
    TimedOut,
    WriteZero,
    StorageFull,
    NotSeekable,
    FilesystemQuotaExceeded,
    FileTooLarge,
    ResourceBusy,
    ExecutableFileBusy,
    Deadlock,
    CrossesDevices,
    TooManyLinks,
    InvalidFilename,
    ArgumentListTooLong,
    Interrupted,
    Unsupported,
    UnexpectedEof,
    OutOfMemory,
    Other,
}

/// An I/O error as plain values: the operating system's code, where there is
/// one, and the kind of failure.
#[derive(Clone, Copy, Debug, PartialEq, Eq)]
pub struct RemoteIOError {
    pub raw_os_error: Option<i32>,
    pub kind: ErrorKindInternal,
}

/// Failures of the remote side that are not I/O errors.
#[derive(Clone, Debug, PartialEq, Eq)]
pub enum RemoteError {
    NameserverNotFound,
    AddressParsing(String),
    InvalidAddress(SocketAddress),
    ConnectTimedOut(SocketAddress),
}

/// What the agent answers when a remote operation fails.
#[derive(Clone, Debug, PartialEq, Eq)]
pub enum ResponseError {
    AllocationFailure(String),
    NotFound(usize),
    NotDirectory(usize),
    NotFile(usize),
    RemoteIO(RemoteIOError),
    DnsFailure(i32),
    Remote(RemoteError),
}

/// The kind that stands for a kind of the standard library, where there is
/// one. The standard library may name further kinds; they have none. No kind
/// that can be named in stable code stands for `FilesystemLoop`.
pub open spec fn counterpart(kind: ErrorKind) -> Option<ErrorKindInternal> {
    match kind {
        ErrorKind::NotFound => Some(ErrorKindInternal::NotFound),
        ErrorKind::PermissionDenied => Some(ErrorKindInternal::PermissionDenied),
        ErrorKind::ConnectionRefused => Some(ErrorKindInternal::ConnectionRefused),
        ErrorKind::ConnectionReset => Some(ErrorKindInternal::ConnectionReset),
        ErrorKind::HostUnreachable => Some(ErrorKindInternal::HostUnreachable),
        ErrorKind::NetworkUnreachable => Some(ErrorKindInternal::NetworkUnreachable),
        ErrorKind::ConnectionAborted => Some(ErrorKindInternal::ConnectionAborted),
        ErrorKind::NotConnected => Some(ErrorKindInternal::NotConnected),
        ErrorKind::AddrInUse => Some(ErrorKindInternal::AddrInUse),
        ErrorKind::AddrNotAvailable => Some(ErrorKindInternal::AddrNotAvailable),
        ErrorKind::NetworkDown => Some(ErrorKindInternal::NetworkDown),
        ErrorKind::BrokenPipe => Some(ErrorKindInternal::BrokenPipe),
        ErrorKind::AlreadyExists => Some(ErrorKindInternal::AlreadyExists),
        ErrorKind::WouldBlock => Some(ErrorKindInternal::WouldBlock),
        ErrorKind::NotADirectory => Some(ErrorKindInternal::NotADirectory),
        ErrorKind::IsADirectory => Some(ErrorKindInternal::IsADirectory),
        ErrorKind::DirectoryNotEmpty => Some(ErrorKindInternal::DirectoryNotEmpty),
        ErrorKind::ReadOnlyFilesystem => Some(ErrorKindInternal::ReadOnlyFilesystem),
        ErrorKind::StaleNetworkFileHandle => Some(ErrorKindInternal::StaleNetworkFileHandle),
        ErrorKind::InvalidInput => Some(ErrorKindInternal::InvalidInput),
        ErrorKind::InvalidData => Some(ErrorKindInternal::InvalidData),
        ErrorKind::TimedOut => Some(ErrorKindInternal::TimedOut),
        ErrorKind::WriteZero => Some(ErrorKindInternal::WriteZero),
        ErrorKind::StorageFull => Some(ErrorKindInternal::StorageFull),
        ErrorKind::NotSeekable => Some(ErrorKindInternal::NotSeekable),
        ErrorKind::QuotaExceeded => Some(ErrorKindInternal::FilesystemQuotaExceeded),
        ErrorKind::FileTooLarge => Some(ErrorKindInternal::FileTooLarge),
        ErrorKind::ResourceBusy => Some(ErrorKindInternal::ResourceBusy),
        ErrorKind::ExecutableFileBusy => Some(ErrorKindInternal::ExecutableFileBusy),
        ErrorKind::Deadlock => Some(ErrorKindInternal::Deadlock),
        ErrorKind::CrossesDevices => Some(ErrorKindInternal::CrossesDevices),
        ErrorKind::TooManyLinks => Some(ErrorKindInternal::TooManyLinks),
        ErrorKind::InvalidFilename => Some(ErrorKindInternal::InvalidFilename),
        ErrorKind::ArgumentListTooLong => Some(ErrorKindInternal::ArgumentListTooLong),
        ErrorKind::Interrupted => Some(ErrorKindInternal::Interrupted),
        ErrorKind::Unsupported => Some(ErrorKindInternal::Unsupported),
        ErrorKind::UnexpectedEof => Some(ErrorKindInternal::UnexpectedEof),
        ErrorKind::OutOfMemory => Some(ErrorKindInternal::OutOfMemory),
        ErrorKind::Other => Some(ErrorKindInternal::Other),
        _ => None,
    }
}

impl ErrorKindInternal {
    /// Converts a kind of the standard library, or gives `None` for a kind
    /// that has no counterpart here.
    pub fn from_io_kind(kind: ErrorKind) -> (converted: Option<ErrorKindInternal>)
        ensures
            converted == counterpart(kind),
    {
        match kind {
            ErrorKind::NotFound => Some(ErrorKindInternal::NotFound),
            ErrorKind::PermissionDenied => Some(ErrorKindInternal::PermissionDenied),
            ErrorKind::ConnectionRefused => Some(ErrorKindInternal::ConnectionRefused),
            ErrorKind::ConnectionReset => Some(ErrorKindInternal::ConnectionReset),
            ErrorKind::HostUnreachable => Some(ErrorKindInternal::HostUnreachable),
            ErrorKind::NetworkUnreachable => Some(ErrorKindInternal::NetworkUnreachable),
            ErrorKind::ConnectionAborted => Some(ErrorKindInternal::ConnectionAborted),
            ErrorKind::NotConnected => Some(ErrorKindInternal::NotConnected),
            ErrorKind::AddrInUse => Some(ErrorKindInternal::AddrInUse),
            ErrorKind::AddrNotAvailable => Some(ErrorKindInternal::AddrNotAvailable),
            ErrorKind::NetworkDown => Some(ErrorKindInternal::NetworkDown),
            ErrorKind::BrokenPipe => Some(ErrorKindInternal::BrokenPipe),
            ErrorKind::AlreadyExists => Some(ErrorKindInternal::AlreadyExists),
            ErrorKind::WouldBlock => Some(ErrorKindInternal::WouldBlock),
            ErrorKind::NotADirectory => Some(ErrorKindInternal::NotADirectory),
            ErrorKind::IsADirectory => Some(ErrorKindInternal::IsADirectory),
            ErrorKind::DirectoryNotEmpty => Some(ErrorKindInternal::DirectoryNotEmpty),
            ErrorKind::ReadOnlyFilesystem => Some(ErrorKindInternal::ReadOnlyFilesystem),
            ErrorKind::StaleNetworkFileHandle => Some(ErrorKindInternal::StaleNetworkFileHandle),
            ErrorKind::InvalidInput => Some(ErrorKindInternal::InvalidInput),
            ErrorKind::InvalidData => Some(ErrorKindInternal::InvalidData),
            ErrorKind::TimedOut => Some(ErrorKindInternal::TimedOut),
            ErrorKind::WriteZero => Some(ErrorKindInternal::WriteZero),
            ErrorKind::StorageFull => Some(ErrorKindInternal::StorageFull),
            ErrorKind::NotSeekable => Some(ErrorKindInternal::NotSeekable),
            ErrorKind::QuotaExceeded => Some(ErrorKindInternal::FilesystemQuotaExceeded),
            ErrorKind::FileTooLarge => Some(ErrorKindInternal::FileTooLarge),
            ErrorKind::ResourceBusy => Some(ErrorKindInternal::ResourceBusy),
            ErrorKind::ExecutableFileBusy => Some(ErrorKindInternal::ExecutableFileBusy),
            ErrorKind::Deadlock => Some(ErrorKindInternal::Deadlock),
            ErrorKind::CrossesDevices => Some(ErrorKindInternal::CrossesDevices),
            ErrorKind::TooManyLinks => Some(ErrorKindInternal::TooManyLinks),
            ErrorKind::InvalidFilename => Some(ErrorKindInternal::InvalidFilename),
            ErrorKind::ArgumentListTooLong => Some(ErrorKindInternal::ArgumentListTooLong),
            ErrorKind::Interrupted => Some(ErrorKindInternal::Interrupted),
            ErrorKind::Unsupported => Some(ErrorKindInternal::Unsupported),
            ErrorKind::UnexpectedEof => Some(ErrorKindInternal::UnexpectedEof),
            ErrorKind::OutOfMemory => Some(ErrorKindInternal::OutOfMemory),
            ErrorKind::Other => Some(ErrorKindInternal::Other),
            _ => None,
        }
    }
}

impl RemoteIOError {
    /// An I/O error read off as plain values: the operating system's code
    /// and the kind. `None` for a kind that has no counterpart here.
    pub fn from_io(raw_os_error: Option<i32>, kind: ErrorKind) -> (converted: Option<
        RemoteIOError,
    >)
        ensures
            converted == (match counterpart(kind) {
                Some(kind) => Some(RemoteIOError { raw_os_error, kind }),
                None => None,
            }),
    {
        match ErrorKindInternal::from_io_kind(kind) {
            Some(kind) => Some(RemoteIOError { raw_os_error, kind }),
            None => None,
        }
    }
}

impl ResponseError {
    /// The response for a remote operation that failed with an I/O error.
    /// `None` for a kind that has no counterpart here.
    pub fn from_io(raw_os_error: Option<i32>, kind: ErrorKind) -> (converted: Option<
        ResponseError,
    >)
        ensures
            converted == (match counterpart(kind) {
                Some(kind) => Some(ResponseError::RemoteIO(RemoteIOError { raw_os_error, kind })),
                None => None,
            }),
    {
        match RemoteIOError::from_io(raw_os_error, kind) {
            Some(error) => Some(ResponseError::RemoteIO(error)),
            None => None,
        }
    }

}

impl From<RemoteError> for ResponseError {
    fn from(error: RemoteError) -> (converted: Self) {
        ResponseError::Remote(error)
    }
}

impl vstd::std_specs::convert::FromSpecImpl<RemoteError> for ResponseError {
    open spec fn obeys_from_spec() -> bool {
        true
    }

    open spec fn from_spec(error: RemoteError) -> Self {
        ResponseError::Remote(error)
    }
}

/// No two kinds of the standard library share a counterpart.
pub proof fn lemma_counterpart_is_injective(first: ErrorKind, second: ErrorKind)
    requires
        counterpart(first) is Some,
        counterpart(first) == counterpart(second),
    ensures
        first == second,
{
}

} // verus!
