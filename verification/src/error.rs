//! Why a capture could not be created or started.

use vstd::prelude::*;
use vstd::string::StringExecFns;

verus! {

/// A refused request. The texts come from the audio backend.
#[derive(Debug, PartialEq, Eq)]
pub enum CaptureError {
    /// The device could not be opened on creation.
    OpenFailed(String),
    /// The device could not be opened again for a restart.
    ReopenFailed(String),
    /// There is no stream to play.
    InputMissing,
    /// The stream could not be played.
    PlayFailed(String),
    /// The stream has no samples to hand out.
    NoConsumer,
}

/// The model of [`CaptureError`].
pub enum ErrorModel {
    OpenFailed(Seq<char>),
    ReopenFailed(Seq<char>),
    InputMissing,
    PlayFailed(Seq<char>),
    NoConsumer,
}

impl View for CaptureError {
    type V = ErrorModel;

    open spec fn view(&self) -> ErrorModel {
        match self {
            CaptureError::OpenFailed(text) => ErrorModel::OpenFailed(text@),
            CaptureError::ReopenFailed(text) => ErrorModel::ReopenFailed(text@),
            CaptureError::InputMissing => ErrorModel::InputMissing,
            CaptureError::PlayFailed(text) => ErrorModel::PlayFailed(text@),
            CaptureError::NoConsumer => ErrorModel::NoConsumer,
        }
    }
}

impl ErrorModel {
    /// The text that the caller is shown.
    pub open spec fn reason(self) -> Seq<char> {
        match self {
            ErrorModel::OpenFailed(text) => "Failed: "@ + text,
            ErrorModel::ReopenFailed(text) => "[MicrophoneCapture] Failed to recreate stream: "@
                + text,
            ErrorModel::InputMissing => "Input missing"@,
            ErrorModel::PlayFailed(text) => text,
            ErrorModel::NoConsumer => "Failed to get consumer"@,
        }
    }
}

impl CaptureError {
    /// The text that the caller is shown.
    pub fn reason(&self) -> (text: String)
        ensures
            text@ == self@.reason(),
            text@ == match self {
                CaptureError::OpenFailed(told) => "Failed: "@ + told@,
                CaptureError::ReopenFailed(told) => {
                    "[MicrophoneCapture] Failed to recreate stream: "@ + told@
                },
                CaptureError::InputMissing => "Input missing"@,
                CaptureError::PlayFailed(told) => told@,
                CaptureError::NoConsumer => "Failed to get consumer"@,
            },
    {
        match self {
            CaptureError::OpenFailed(text) => "Failed: ".to_owned().concat(text.as_str()),
            CaptureError::ReopenFailed(text) => {
                "[MicrophoneCapture] Failed to recreate stream: ".to_owned().concat(text.as_str())
            },
            CaptureError::InputMissing => "Input missing".to_owned(),
            CaptureError::PlayFailed(text) => text.clone(),
            CaptureError::NoConsumer => "Failed to get consumer".to_owned(),
        }
    }
}

/// An error is spoken of by its kind and by every character that the backend told.
pub proof fn errors_keep_the_text(error: CaptureError)
    ensures
        match error {
            CaptureError::OpenFailed(text) => error@ == ErrorModel::OpenFailed(text@),
            CaptureError::ReopenFailed(text) => error@ == ErrorModel::ReopenFailed(text@),
            CaptureError::InputMissing => error@ is InputMissing,
            CaptureError::PlayFailed(text) => error@ == ErrorModel::PlayFailed(text@),
            CaptureError::NoConsumer => error@ is NoConsumer,
        },
{
}

/// What the backend told ends the text that the caller is shown, whole; before it stands
/// what was tried, the same for every text, or nothing where a stream was to be played.
pub proof fn reason_ends_with_the_text(text: Seq<char>)
    ensures
        ErrorModel::OpenFailed(text).reason() == "Failed: "@ + text,
        ErrorModel::ReopenFailed(text).reason()
            == "[MicrophoneCapture] Failed to recreate stream: "@ + text,
        ErrorModel::PlayFailed(text).reason() == text,
        ErrorModel::InputMissing.reason() == "Input missing"@,
        ErrorModel::NoConsumer.reason() == "Failed to get consumer"@,
{
}

} // verus!
