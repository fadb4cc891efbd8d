//! The errors of the tap operations.

use vstd::prelude::*;

verus! {

/// `std::io::Error`, an error of the operating system. The library carries such
/// a value from the call that failed to the caller and never looks inside it.
#[verifier::external_type_specification]
#[verifier::external_body]
pub struct ExIoError(std::io::Error);

/// List of errors the tap implementation can throw.
#[derive(Debug)]
pub enum TapError {
    /// Couldn't open /dev/net/tun.
    OpenTun(std::io::Error),
    /// Invalid interface name.
    InvalidIfname,
    /// The interface request was refused, and who provided the backend.
    IfreqExecuteError(std::io::Error, String),
    /// Error while setting the offload flags.
    SetOffloadFlags(std::io::Error),
    /// Error while setting the size of the vnet header.
    SetSizeOfVnetHdr(std::io::Error),
    /// The pre-opened tap descriptor is not a TAP queue with compatible flags.
    IncompatiblePreopenedTapFlags(i32),
    /// Invalid `fd:`/`fdp:` tap open spec.
    InvalidFdSpec(String),
    /// Failed to dup the inherited tap descriptor.
    DupInheritedTap(std::io::Error),
    /// The inherited tap descriptor is attached to another interface.
    InheritedTapNameMismatch { expected: String, actual: String },
}

/// A [`TapError`] with its texts as sequences of characters.
pub enum TapErrorView {
    OpenTun(std::io::Error),
    InvalidIfname,
    IfreqExecuteError(std::io::Error, Seq<char>),
    SetOffloadFlags(std::io::Error),
    SetSizeOfVnetHdr(std::io::Error),
    IncompatiblePreopenedTapFlags(i32),
    InvalidFdSpec(Seq<char>),
    DupInheritedTap(std::io::Error),
    InheritedTapNameMismatch { expected: Seq<char>, actual: Seq<char> },
}

impl TapErrorView {
    /// Whether two errors are of the same kind, whatever they hold.
    pub open spec fn same_variant(self, other: TapErrorView) -> bool {
        match self {
            TapErrorView::OpenTun(_) => other is OpenTun,
            TapErrorView::InvalidIfname => other is InvalidIfname,
            TapErrorView::IfreqExecuteError(_, _) => other is IfreqExecuteError,
            TapErrorView::SetOffloadFlags(_) => other is SetOffloadFlags,
            TapErrorView::SetSizeOfVnetHdr(_) => other is SetSizeOfVnetHdr,
            TapErrorView::IncompatiblePreopenedTapFlags(_) => other is IncompatiblePreopenedTapFlags,
            TapErrorView::InvalidFdSpec(_) => other is InvalidFdSpec,
            TapErrorView::DupInheritedTap(_) => other is DupInheritedTap,
            TapErrorView::InheritedTapNameMismatch { .. } => other is InheritedTapNameMismatch,
        }
    }
}

impl View for TapError {
    type V = TapErrorView;

    open spec fn view(&self) -> TapErrorView {
        match *self {
            TapError::OpenTun(error) => TapErrorView::OpenTun(error),
            TapError::InvalidIfname => TapErrorView::InvalidIfname,
            TapError::IfreqExecuteError(error, provider) => TapErrorView::IfreqExecuteError(
                error,
                provider@,
            ),
            TapError::SetOffloadFlags(error) => TapErrorView::SetOffloadFlags(error),
            TapError::SetSizeOfVnetHdr(error) => TapErrorView::SetSizeOfVnetHdr(error),
            TapError::IncompatiblePreopenedTapFlags(flags) =>
                TapErrorView::IncompatiblePreopenedTapFlags(flags),
            TapError::InvalidFdSpec(spec) => TapErrorView::InvalidFdSpec(spec@),
            TapError::DupInheritedTap(error) => TapErrorView::DupInheritedTap(error),
            TapError::InheritedTapNameMismatch { expected, actual } =>
                TapErrorView::InheritedTapNameMismatch { expected: expected@, actual: actual@ },
        }
    }
}

} // verus!
