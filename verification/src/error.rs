//! Errors of a provisioning run.

use vstd::prelude::*;

verus! {

/// Why a provisioning run stopped. Each variant carries a message for the
/// operator.
#[derive(Debug, Clone, PartialEq, Eq)]
pub enum AppAuthHandlerError {
    /// A namespace was too short to derive a state address from.
    AddressError(String),
    /// A smart contract artifact could not be read.
    ContractLoadError(String),
    /// An action could not be encoded as a Sabre payload.
    SabreError(String),
    /// The signing key was malformed, or a transaction could not be signed.
    SigningError(String),
    /// The batch could not be put together.
    AssemblyError(String),
    /// The ledger did not accept the batch list, or could not be reached.
    SubmissionError(String),
}

/// The kinds of error of a provisioning run.
pub enum ErrorKind {
    Address,
    ContractLoad,
    Sabre,
    Signing,
    Assembly,
    Submission,
}

/// An error as a mathematical value: its kind and its message.
pub struct ErrorView {
    pub kind: ErrorKind,
    pub message: Seq<char>,
}

impl View for AppAuthHandlerError {
    type V = ErrorView;

    open spec fn view(&self) -> ErrorView {
        match self {
            AppAuthHandlerError::AddressError(m) => ErrorView {
                kind: ErrorKind::Address,
                message: m@,
            },
            AppAuthHandlerError::ContractLoadError(m) => ErrorView {
                kind: ErrorKind::ContractLoad,
                message: m@,
            },
            AppAuthHandlerError::SabreError(m) => ErrorView { kind: ErrorKind::Sabre, message: m@ },
            AppAuthHandlerError::SigningError(m) => ErrorView {
                kind: ErrorKind::Signing,
                message: m@,
            },
            AppAuthHandlerError::AssemblyError(m) => ErrorView {
                kind: ErrorKind::Assembly,
                message: m@,
            },
            AppAuthHandlerError::SubmissionError(m) => ErrorView {
                kind: ErrorKind::Submission,
                message: m@,
            },
        }
    }
}

} // verus!
