//! Capture from a microphone.
//!
//! The stream of a microphone hands out its samples only once. So a stream that a
//! start has used is never used again: the next start opens the device anew. This
//! guarantees that the ring a capture reads from is always fresh, and allows a
//! capture to be stopped and started over and over.

#[allow(unused_imports)]
use crate::dsp::{SuppressorProfile, SuppressorSetup};
use crate::error::CaptureError;
#[allow(unused_imports)]
use crate::error::ErrorModel;
use crate::system::copy_id;
#[allow(unused_imports)]
use crate::system::id_chars;
use vstd::prelude::*;

verus! {

/// What the capture holds of its device.
#[derive(Debug, Clone, Copy, PartialEq, Eq, Structural)]
pub enum StreamState {
    /// No stream.
    Absent,
    /// A stream whose samples were not handed out.
    Fresh,
    /// A stream that was asked for its samples.
    Consumed,
}

/// A capture from a microphone.
pub struct MicrophoneCapture {
    stop_signal: bool,
    capture_thread: bool,
    sample_rate: u32,
    device_id: Option<String>,
    input: StreamState,
}

/// What a start has to do next.
#[derive(Debug, PartialEq, Eq)]
pub enum StartAction {
    /// Open this device, or the default one, in place of the stream there is.
    Open(Option<String>),
    /// Play the stream.
    Play,
    /// Ask the stream for its samples.
    TakeConsumer,
    /// Run the signal-processing loop on a thread of its own, at this rate.
    Run { native_rate: u32, suppressor: SuppressorSetup },
}

/// What a stop has to do, in this order.
#[derive(Debug, Clone, Copy, PartialEq, Eq, Structural)]
pub struct StopActions {
    /// Wait for the thread.
    pub join: bool,
    /// Pause the stream and let go of it.
    pub pause: bool,
}

/// The model of [`MicrophoneCapture`].
pub struct MicModel {
    /// The thread is asked to end.
    pub stop_signal: bool,
    /// There is a thread to wait for.
    pub running: bool,
    pub sample_rate: u32,
    pub device_id: Option<Seq<char>>,
    pub input: StreamState,
}

/// The model of [`StartAction`].
pub enum StartActionModel {
    Open(Option<Seq<char>>),
    Play,
    TakeConsumer,
    Run { native_rate: u32, suppressor: SuppressorSetup },
}

impl View for StartAction {
    type V = StartActionModel;

    open spec fn view(&self) -> StartActionModel {
        match self {
            StartAction::Open(device_id) => StartActionModel::Open(id_chars(*device_id)),
            StartAction::Play => StartActionModel::Play,
            StartAction::TakeConsumer => StartActionModel::TakeConsumer,
            StartAction::Run { native_rate, suppressor } => StartActionModel::Run {
                native_rate: *native_rate,
                suppressor: *suppressor,
            },
        }
    }
}

impl View for MicrophoneCapture {
    type V = MicModel;

    closed spec fn view(&self) -> MicModel {
        MicModel {
            stop_signal: self.stop_signal,
            running: self.capture_thread,
            sample_rate: self.sample_rate,
            device_id: id_chars(self.device_id),
            input: self.input,
        }
    }
}

/// What a backend call gave: a rate, or the text of its error.
pub open spec fn rate_or_text(outcome: Result<u32, String>) -> Result<u32, Seq<char>> {
    match outcome {
        Ok(rate) => Ok(rate),
        Err(text) => Err(text@),
    }
}

/// The model of what a part of a start says.
pub open spec fn start_outcome(outcome: Result<StartAction, CaptureError>) -> Result<
    StartActionModel,
    ErrorModel,
> {
    match outcome {
        Ok(action) => Ok(action@),
        Err(error) => Err(error@),
    }
}

impl MicModel {
    /// A capture of a device that was just opened.
    pub open spec fn created(device_id: Option<Seq<char>>, native_rate: u32) -> MicModel {
        MicModel {
            stop_signal: false,
            running: false,
            sample_rate: native_rate,
            device_id,
            input: StreamState::Fresh,
        }
    }

    /// A start begins: the stop signal is withdrawn, and a stream that can still be
    /// used is played; else the device is opened.
    pub open spec fn started(self) -> (MicModel, StartActionModel) {
        (
            MicModel { stop_signal: false, ..self },
            if self.input is Fresh {
                StartActionModel::Play
            } else {
                StartActionModel::Open(self.device_id)
            },
        )
    }

    /// The device was opened anew, or could not be.
    pub open spec fn reopened(self, outcome: Result<u32, Seq<char>>) -> (
        MicModel,
        Result<StartActionModel, ErrorModel>,
    ) {
        match outcome {
            Ok(rate) => (
                MicModel { sample_rate: rate, input: StreamState::Fresh, ..self },
                Ok(StartActionModel::Play),
            ),
            Err(text) => (self, Err(ErrorModel::ReopenFailed(text))),
        }
    }

    /// The stream plays, at this rate, or could not be played.
    pub open spec fn played(self, outcome: Result<u32, Seq<char>>) -> (
        MicModel,
        Result<StartActionModel, ErrorModel>,
    ) {
        if self.input is Absent {
            (self, Err(ErrorModel::InputMissing))
        } else {
            match outcome {
                Ok(rate) => (
                    MicModel { sample_rate: rate, ..self },
                    Ok(StartActionModel::TakeConsumer),
                ),
                Err(text) => (self, Err(ErrorModel::PlayFailed(text))),
            }
        }
    }

    /// The stream was asked for its samples.
    pub open spec fn connected(self, available: bool) -> (
        MicModel,
        Result<StartActionModel, ErrorModel>,
    ) {
        if self.input is Absent {
            (self, Err(ErrorModel::InputMissing))
        } else if available {
            (
                MicModel { running: true, input: StreamState::Consumed, ..self },
                Ok(
                    StartActionModel::Run {
                        native_rate: self.sample_rate,
                        suppressor: SuppressorSetup {
                            profile: SuppressorProfile::Microphone,
                            native_sample_rate: self.sample_rate,
                        },
                    },
                ),
            )
        } else {
            (MicModel { input: StreamState::Consumed, ..self }, Err(ErrorModel::NoConsumer))
        }
    }

    pub open spec fn stopped(self) -> MicModel {
        MicModel { stop_signal: true, running: false, input: StreamState::Absent, ..self }
    }

    /// What a stop has to do.
    pub open spec fn stop_actions(self) -> StopActions {
        StopActions { join: self.running, pause: !(self.input is Absent) }
    }
}

impl MicrophoneCapture {
    /// A capture of the given device, or of the default one, from what opening it
    /// gave: its rate or an error. Opening comes first, so that device errors are
    /// detected early.
    pub fn new(device_id: Option<String>, opened: Result<u32, String>) -> (capture: Result<
        Self,
        CaptureError,
    >)
        ensures
            match rate_or_text(opened) {
                Ok(rate) => capture matches Ok(capture) && capture@ == MicModel::created(
                    id_chars(device_id),
                    rate,
                ),
                Err(text) => capture matches Err(error) && error@ == ErrorModel::OpenFailed(text),
            },
            match opened {
                Ok(rate) => {
                    &&& capture matches Ok(capture)
                    &&& !capture@.stop_signal
                    &&& !capture@.running
                    &&& capture@.sample_rate == rate
                    &&& capture@.device_id is Some <==> device_id is Some
                    &&& device_id matches Some(id) ==> capture@.device_id == Some(id@)
                    &&& capture@.input is Fresh
                },
                Err(text) => {
                    &&& capture matches Err(CaptureError::OpenFailed(told))
                    &&& told@ == text@
                },
            },
    {
        match opened {
            Ok(rate) => Ok(
                MicrophoneCapture {
                    stop_signal: false,
                    capture_thread: false,
                    sample_rate: rate,
                    device_id,
                    input: StreamState::Fresh,
                },
            ),
            Err(text) => Err(CaptureError::OpenFailed(text)),
        }
    }

    /// The device's rate.
    pub fn get_sample_rate(&self) -> (rate: u32)
        ensures
            rate == self@.sample_rate,
    {
        self.sample_rate
    }

    /// The thread is asked to end.
    pub fn stop_requested(&self) -> (requested: bool)
        ensures
            requested == self@.stop_signal,
    {
        self.stop_signal
    }

    /// Begins a start.
    pub fn start(&mut self) -> (action: StartAction)
        ensures
            (final(self)@, action@) == old(self)@.started(),
            !final(self)@.stop_signal,
            final(self)@.running == old(self)@.running,
            final(self)@.sample_rate == old(self)@.sample_rate,
            final(self)@.device_id == old(self)@.device_id,
            final(self)@.input == old(self)@.input,
            if old(self)@.input is Fresh {
                action is Play
            } else {
                &&& action matches StartAction::Open(device_id)
                &&& device_id is Some <==> old(self)@.device_id is Some
                &&& device_id matches Some(id) ==> old(self)@.device_id == Some(id@)
            },
    {
        self.stop_signal = false;
        if let StreamState::Fresh = self.input {
            StartAction::Play
        } else {
            StartAction::Open(copy_id(&self.device_id))
        }
    }

    /// Goes on after the device was opened anew, at this rate, or could not be.
    pub fn reopened(&mut self, opened: Result<u32, String>) -> (action: Result<
        StartAction,
        CaptureError,
    >)
        ensures
            (final(self)@, start_outcome(action)) == old(self)@.reopened(rate_or_text(opened)),
            final(self)@.stop_signal == old(self)@.stop_signal,
            final(self)@.device_id == old(self)@.device_id,
            final(self)@.running == old(self)@.running,
            match opened {
                Ok(rate) => {
                    &&& action matches Ok(StartAction::Play)
                    &&& final(self)@.sample_rate == rate
                    &&& final(self)@.input is Fresh
                },
                Err(text) => {
                    &&& action matches Err(CaptureError::ReopenFailed(told))
                    &&& told@ == text@
                    &&& final(self)@.sample_rate == old(self)@.sample_rate
                    &&& final(self)@.input == old(self)@.input
                },
            },
    {
        match opened {
            Ok(rate) => {
                self.sample_rate = rate;
                self.input = StreamState::Fresh;
                Ok(StartAction::Play)
            },
            Err(text) => Err(CaptureError::ReopenFailed(text)),
        }
    }

    /// Goes on after the stream was played, at this rate, or could not be.
    pub fn played(&mut self, played: Result<u32, String>) -> (action: Result<
        StartAction,
        CaptureError,
    >)
        ensures
            (final(self)@, start_outcome(action)) == old(self)@.played(rate_or_text(played)),
            final(self)@.stop_signal == old(self)@.stop_signal,
            final(self)@.device_id == old(self)@.device_id,
            final(self)@.running == old(self)@.running,
            final(self)@.input == old(self)@.input,
            action matches Err(CaptureError::InputMissing) <==> old(self)@.input is Absent,
            match played {
                Ok(rate) => if old(self)@.input is Absent {
                    final(self)@.sample_rate == old(self)@.sample_rate
                } else {
                    &&& action matches Ok(StartAction::TakeConsumer)
                    &&& final(self)@.sample_rate == rate
                },
                Err(text) => {
                    &&& final(self)@.sample_rate == old(self)@.sample_rate
                    &&& !(old(self)@.input is Absent) ==> {
                        &&& action matches Err(CaptureError::PlayFailed(told))
                        &&& told@ == text@
                    }
                },
            },
    {
        if let StreamState::Absent = self.input {
            return Err(CaptureError::InputMissing);
        }
        match played {
            Ok(rate) => {
                self.sample_rate = rate;
                Ok(StartAction::TakeConsumer)
            },
            Err(text) => Err(CaptureError::PlayFailed(text)),
        }
    }

    /// Goes on after the stream was asked for its samples.
    pub fn connected(&mut self, available: bool) -> (action: Result<StartAction, CaptureError>)
        ensures
            (final(self)@, start_outcome(action)) == old(self)@.connected(available),
            final(self)@.stop_signal == old(self)@.stop_signal,
            final(self)@.device_id == old(self)@.device_id,
            final(self)@.sample_rate == old(self)@.sample_rate,
            if old(self)@.input is Absent {
                &&& action matches Err(CaptureError::InputMissing)
                &&& final(self)@.running == old(self)@.running
                &&& final(self)@.input is Absent
            } else if available {
                &&& action matches Ok(StartAction::Run { native_rate, suppressor })
                &&& native_rate == old(self)@.sample_rate
                &&& suppressor.profile is Microphone
                &&& suppressor.native_sample_rate == old(self)@.sample_rate
                &&& final(self)@.running
                &&& final(self)@.input is Consumed
            } else {
                &&& action matches Err(CaptureError::NoConsumer)
                &&& final(self)@.running == old(self)@.running
                &&& final(self)@.input is Consumed
            },
    {
        if let StreamState::Absent = self.input {
            return Err(CaptureError::InputMissing);
        }
        self.input = StreamState::Consumed;
        if available {
            self.capture_thread = true;
            Ok(
                StartAction::Run {
                    native_rate: self.sample_rate,
                    suppressor: SuppressorSetup {
                        profile: SuppressorProfile::Microphone,
                        native_sample_rate: self.sample_rate,
                    },
                },
            )
        } else {
            Err(CaptureError::NoConsumer)
        }
    }

    /// Raises the stop signal, lets go of the stream, and says what is to be done.
    pub fn stop(&mut self) -> (actions: StopActions)
        ensures
            final(self)@ == old(self)@.stopped(),
            actions == old(self)@.stop_actions(),
            actions.join == old(self)@.running,
            actions.pause == !(old(self)@.input is Absent),
            final(self)@.stop_signal,
            !final(self)@.running,
            final(self)@.sample_rate == old(self)@.sample_rate,
            final(self)@.device_id == old(self)@.device_id,
            final(self)@.input is Absent,
    {
        self.stop_signal = true;
        let pause = match self.input {
            StreamState::Absent => false,
            _ => true,
        };
        let actions = StopActions { join: self.capture_thread, pause };
        self.capture_thread = false;
        self.input = StreamState::Absent;
        actions
    }
}

} // verus!
