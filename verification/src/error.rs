//! The errors of the loader, as values.

use crate::text::{decode_text, decoded};
use vstd::prelude::*;

verus! {

/// Why an open or a symbol resolution did not succeed.
#[derive(Debug, PartialEq, Eq)]
pub enum LoadError {
    /// The path or symbol name holds a zero byte, so it cannot be handed to
    /// the native loader. No native call was made.
    InvalidInput,
    /// The native loader failed and described the failure.
    NativeOperationFailed(String),
    /// The native loader failed, and its description could not be had or was
    /// not text.
    NativeOperationFailedDiagnosticUnavailable,
}

/// A [`LoadError`] with its message as a sequence of characters.
pub enum LoadErrorView {
    InvalidInput,
    NativeOperationFailed(Seq<char>),
    NativeOperationFailedDiagnosticUnavailable,
}

impl View for LoadError {
    type V = LoadErrorView;

    open spec fn view(&self) -> LoadErrorView {
        match self {
            LoadError::InvalidInput => LoadErrorView::InvalidInput,
            LoadError::NativeOperationFailed(message) => LoadErrorView::NativeOperationFailed(
                message@,
            ),
            LoadError::NativeOperationFailedDiagnosticUnavailable =>
                LoadErrorView::NativeOperationFailedDiagnosticUnavailable,
        }
    }
}

impl Clone for LoadError {
    fn clone(&self) -> (copy: LoadError)
        ensures
            copy@ == self@,
    {
        match self {
            LoadError::InvalidInput => LoadError::InvalidInput,
            LoadError::NativeOperationFailed(message) => LoadError::NativeOperationFailed(
                message.clone(),
            ),
            LoadError::NativeOperationFailedDiagnosticUnavailable =>
                LoadError::NativeOperationFailedDiagnosticUnavailable,
        }
    }
}

impl LoadErrorView {
    /// The text shown to a person for this error.
    pub open spec fn message(self) -> Seq<char> {
        match self {
            LoadErrorView::InvalidInput => "Null byte was found in file path"@,
            LoadErrorView::NativeOperationFailed(message) => message,
            LoadErrorView::NativeOperationFailedDiagnosticUnavailable =>
                "Error occured while loading symbol AND while geting error message."@,
        }
    }
}

impl LoadError {
    /// The text shown to a person for this error: the native diagnostic where
    /// there is one, a fixed sentence otherwise.
    pub fn message(&self) -> (text: String)
        ensures
            text@ == self@.message(),
    {
        match self {
            LoadError::InvalidInput => "Null byte was found in file path".to_owned(),
            LoadError::NativeOperationFailed(message) => message.clone(),
            LoadError::NativeOperationFailedDiagnosticUnavailable =>
                "Error occured while loading symbol AND while geting error message.".to_owned(),
        }
    }
}

/// The native last-error query that a driver has to perform after a failed
/// open or resolution.
#[derive(Debug)]
pub struct DiagnosticRequest {
    failed: (),
}

/// The error that a failed native call becomes, given what the last-error
/// query gave: its bytes, or nothing where the loader had no description.
pub open spec fn native_failure(diagnostic: Option<Seq<u8>>) -> LoadErrorView {
    match diagnostic {
        Some(bytes) => match decoded(bytes) {
            Some(message) => LoadErrorView::NativeOperationFailed(message),
            None => LoadErrorView::NativeOperationFailedDiagnosticUnavailable,
        },
        None => LoadErrorView::NativeOperationFailedDiagnosticUnavailable,
    }
}

impl DiagnosticRequest {
    pub(crate) fn new() -> DiagnosticRequest {
        DiagnosticRequest { failed: () }
    }

    /// Takes the reply to the last-error query and gives the error of the
    /// failed operation. A description that is text becomes the error's
    /// message; a missing one, or one that is not text, leaves the error
    /// without a message.
    pub fn complete(self, diagnostic: Option<Vec<u8>>) -> (error: LoadError)
        ensures
            error@ == native_failure(
                match diagnostic {
                    Some(bytes) => Some(bytes@),
                    None => None,
                },
            ),
    {
        match diagnostic {
            Some(bytes) => match decode_text(bytes) {
                Some(message) => LoadError::NativeOperationFailed(message),
                None => LoadError::NativeOperationFailedDiagnosticUnavailable,
            },
            None => LoadError::NativeOperationFailedDiagnosticUnavailable,
        }
    }
}

} // verus!
