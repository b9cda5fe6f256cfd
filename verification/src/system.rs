//! Capture of what the system plays.
//!
//! Starting a capture only hands out the job of its background thread. The thread
//! opens the device itself, which may take seconds, and publishes the device's
//! real rate once it is known. A device that cannot be opened, or that gives nothing
//! but silence, is left once for the default one.

#[allow(unused_imports)]
use crate::dsp::{SuppressorProfile, SuppressorSetup};
use crate::error::CaptureError;
use vstd::prelude::*;

verus! {

/// The rate that is reported until the device has told its own. 48kHz is the
/// standard macOS CoreAudio rate.
pub const DEFAULT_SAMPLE_RATE: u32 = 48000;

/// The rate to which system audio is converted.
pub const OUTPUT_SAMPLE_RATE: u32 = 16000;

/// A capture of system audio.
pub struct SystemAudioCapture {
    stop_signal: bool,
    capture_thread: bool,
    sample_rate: u32,
    device_id: Option<String>,
}

/// The model of [`SystemAudioCapture`].
pub struct SystemModel {
    /// The background thread is asked to end.
    pub stop_signal: bool,
    /// There is a background thread to wait for.
    pub running: bool,
    pub sample_rate: u32,
    pub device_id: Option<Seq<char>>,
}

/// The characters of a device identifier, where one is given.
pub open spec fn id_chars(device_id: Option<String>) -> Option<Seq<char>> {
    match device_id {
        Some(id) => Some(id@),
        None => None,
    }
}

pub(crate) fn copy_id(device_id: &Option<String>) -> (copy: Option<String>)
    ensures
        id_chars(copy) == id_chars(*device_id),
        copy is Some <==> device_id is Some,
        copy is Some ==> copy->0@ == device_id->0@,
{
    match device_id {
        Some(id) => Some(id.clone()),
        None => None,
    }
}

impl View for SystemAudioCapture {
    type V = SystemModel;

    closed spec fn view(&self) -> SystemModel {
        SystemModel {
            stop_signal: self.stop_signal,
            running: self.capture_thread,
            sample_rate: self.sample_rate,
            device_id: id_chars(self.device_id),
        }
    }
}

impl SystemModel {
    /// A capture that was never started.
    pub open spec fn created(device_id: Option<Seq<char>>) -> SystemModel {
        SystemModel {
            stop_signal: false,
            running: false,
            sample_rate: DEFAULT_SAMPLE_RATE,
            device_id,
        }
    }

    pub open spec fn started(self) -> SystemModel {
        SystemModel { stop_signal: false, running: true, ..self }
    }

    pub open spec fn published(self, sample_rate: u32) -> SystemModel {
        SystemModel { sample_rate, ..self }
    }

    pub open spec fn stopped(self) -> SystemModel {
        SystemModel { stop_signal: true, running: false, ..self }
    }
}

impl SystemAudioCapture {
    /// A capture of the given device, or of the default one.
    pub fn new(device_id: Option<String>) -> (capture: Result<Self, CaptureError>)
        ensures
            capture matches Ok(capture) && capture@ == SystemModel::created(id_chars(device_id)),
            capture matches Ok(capture) ==> {
                &&& !capture@.stop_signal
                &&& !capture@.running
                &&& capture@.sample_rate == 48000
                &&& capture@.device_id is Some <==> device_id is Some
                &&& device_id matches Some(id) ==> capture@.device_id == Some(id@)
            },
    {
        Ok(
            SystemAudioCapture {
                stop_signal: false,
                capture_thread: false,
                sample_rate: DEFAULT_SAMPLE_RATE,
                device_id,
            },
        )
    }

    /// The device's rate, or the default until the device has told it.
    pub fn get_sample_rate(&self) -> (rate: u32)
        ensures
            rate == self@.sample_rate,
    {
        self.sample_rate
    }

    /// The background thread is asked to end.
    pub fn stop_requested(&self) -> (requested: bool)
        ensures
            requested == self@.stop_signal,
    {
        self.stop_signal
    }

    /// Withdraws the stop signal and hands out the job of the background thread.
    pub fn start(&mut self) -> (worker: Result<SystemWorker, CaptureError>)
        ensures
            final(self)@ == old(self)@.started(),
            worker matches Ok(worker) && worker@ == WorkerModel::created(old(self)@.device_id),
            worker matches Ok(worker) ==> {
                &&& worker@.device_id == old(self)@.device_id
                &&& !worker@.fell_back
                &&& worker@.phase is Idle
            },
            !final(self)@.stop_signal,
            final(self)@.running,
            final(self)@.sample_rate == old(self)@.sample_rate,
            final(self)@.device_id == old(self)@.device_id,
    {
        self.stop_signal = false;
        self.capture_thread = true;
        Ok(
            SystemWorker {
                device_id: copy_id(&self.device_id),
                fell_back: false,
                phase: WorkerPhase::Idle,
            },
        )
    }

    /// Takes note of the device's rate.
    pub fn publish_sample_rate(&mut self, sample_rate: u32)
        ensures
            final(self)@ == old(self)@.published(sample_rate),
            final(self)@.stop_signal == old(self)@.stop_signal,
            final(self)@.running == old(self)@.running,
            final(self)@.sample_rate == sample_rate,
            final(self)@.device_id == old(self)@.device_id,
    {
        self.sample_rate = sample_rate;
    }

    /// Raises the stop signal; `true` where there is a background thread to wait
    /// for.
    pub fn stop(&mut self) -> (join: bool)
        ensures
            final(self)@ == old(self)@.stopped(),
            join == old(self)@.running,
            final(self)@.stop_signal,
            !final(self)@.running,
            final(self)@.sample_rate == old(self)@.sample_rate,
            final(self)@.device_id == old(self)@.device_id,
    {
        self.stop_signal = true;
        let join = self.capture_thread;
        self.capture_thread = false;
        join
    }
}

/// How far the background thread has got.
#[derive(Debug, Clone, Copy, PartialEq, Eq, Structural)]
pub enum WorkerPhase {
    /// Nothing was done yet.
    Idle,
    /// The requested device is being opened.
    Opening,
    /// The default device is being opened instead.
    FallingBack,
    /// The open stream is asked for its samples.
    Connecting,
    /// The signal-processing loop has taken over.
    Running,
    /// The capture failed.
    Failed,
}

/// What the background thread is told.
#[derive(Debug, Clone, Copy, PartialEq, Eq, Structural)]
pub enum WorkerEvent {
    /// The thread runs.
    Started,
    /// The device is open.
    Opened,
    /// The device could not be opened.
    OpenFailed,
    /// The stream gave its samples, at this rate.
    Connected { native_rate: u32 },
    /// The stream had no samples to give.
    NoConsumer,
    /// The signal-processing loop has left the input for its silence.
    WentSilent,
}

/// What the background thread has to do.
#[derive(Debug, PartialEq, Eq)]
pub enum WorkerAction {
    /// Open this device, or the default one.
    Open(Option<String>),
    /// Ask the stream for its samples and its rate.
    TakeConsumer,
    /// Publish the rate and enter the signal-processing loop, converting from it. The
    /// loop may leave the input for its silence or not.
    Run { native_rate: u32, suppressor: SuppressorSetup, may_fall_back: bool },
    /// End.
    GiveUp,
}

/// The model of [`WorkerAction`].
pub enum WorkerActionModel {
    Open(Option<Seq<char>>),
    TakeConsumer,
    Run { native_rate: u32, suppressor: SuppressorSetup, may_fall_back: bool },
    GiveUp,
}

/// The job of the background thread around the signal-processing loop: the requested
/// device is tried first, then, where that cannot be opened or gives nothing but
/// silence, the default one.
pub struct SystemWorker {
    device_id: Option<String>,
    fell_back: bool,
    phase: WorkerPhase,
}

/// The model of [`SystemWorker`].
pub struct WorkerModel {
    pub device_id: Option<Seq<char>>,
    /// The default device was turned to.
    pub fell_back: bool,
    pub phase: WorkerPhase,
}

impl View for WorkerAction {
    type V = WorkerActionModel;

    open spec fn view(&self) -> WorkerActionModel {
        match self {
            WorkerAction::Open(device_id) => WorkerActionModel::Open(id_chars(*device_id)),
            WorkerAction::TakeConsumer => WorkerActionModel::TakeConsumer,
            WorkerAction::Run { native_rate, suppressor, may_fall_back } => {
                WorkerActionModel::Run {
                    native_rate: *native_rate,
                    suppressor: *suppressor,
                    may_fall_back: *may_fall_back,
                }
            },
            WorkerAction::GiveUp => WorkerActionModel::GiveUp,
        }
    }
}

impl View for SystemWorker {
    type V = WorkerModel;

    closed spec fn view(&self) -> WorkerModel {
        WorkerModel {
            device_id: id_chars(self.device_id),
            fell_back: self.fell_back,
            phase: self.phase,
        }
    }
}

impl WorkerModel {
    /// A job that was not begun.
    pub open spec fn created(device_id: Option<Seq<char>>) -> WorkerModel {
        WorkerModel { device_id, fell_back: false, phase: WorkerPhase::Idle }
    }

    /// The event is an answer to what the thread waits for.
    pub open spec fn accepts(self, event: WorkerEvent) -> bool {
        match event {
            WorkerEvent::Started => self.phase is Idle,
            WorkerEvent::Opened | WorkerEvent::OpenFailed => self.phase is Opening
                || self.phase is FallingBack,
            WorkerEvent::Connected { .. } | WorkerEvent::NoConsumer => self.phase is Connecting,
            WorkerEvent::WentSilent => self.phase is Running && !self.fell_back,
        }
    }

    /// The state after an event, and what is to be done then.
    pub open spec fn next(self, event: WorkerEvent) -> (WorkerModel, WorkerActionModel)
        recommends
            self.accepts(event),
    {
        let (fell_back, phase, action) = match event {
            WorkerEvent::Started => (
                self.fell_back,
                WorkerPhase::Opening,
                WorkerActionModel::Open(self.device_id),
            ),
            WorkerEvent::Opened => (
                self.fell_back,
                WorkerPhase::Connecting,
                WorkerActionModel::TakeConsumer,
            ),
            WorkerEvent::OpenFailed => if self.phase is Opening {
                (true, WorkerPhase::FallingBack, WorkerActionModel::Open(None))
            } else {
                (self.fell_back, WorkerPhase::Failed, WorkerActionModel::GiveUp)
            },
            WorkerEvent::Connected { native_rate } => (
                self.fell_back,
                WorkerPhase::Running,
                WorkerActionModel::Run {
                    native_rate,
                    suppressor: SuppressorSetup {
                        profile: SuppressorProfile::SystemAudio,
                        native_sample_rate: OUTPUT_SAMPLE_RATE,
                    },
                    may_fall_back: !self.fell_back,
                },
            ),
            WorkerEvent::NoConsumer => (
                self.fell_back,
                WorkerPhase::Failed,
                WorkerActionModel::GiveUp,
            ),
            WorkerEvent::WentSilent => (
                true,
                WorkerPhase::FallingBack,
                WorkerActionModel::Open(None),
            ),
        };
        (WorkerModel { fell_back, phase, ..self }, action)
    }
}

impl SystemWorker {
    /// How far the thread has got.
    pub fn phase(&self) -> (phase: WorkerPhase)
        ensures
            phase == self@.phase,
    {
        self.phase
    }

    /// The event is an answer to what the thread waits for.
    pub fn accepts(&self, event: WorkerEvent) -> (accepted: bool)
        ensures
            accepted == self@.accepts(event),
    {
        match event {
            WorkerEvent::Started => matches!(self.phase, WorkerPhase::Idle),
            WorkerEvent::Opened | WorkerEvent::OpenFailed => matches!(
                self.phase,
                WorkerPhase::Opening | WorkerPhase::FallingBack
            ),
            WorkerEvent::Connected { .. } | WorkerEvent::NoConsumer => matches!(
                self.phase,
                WorkerPhase::Connecting
            ),
            WorkerEvent::WentSilent => matches!(self.phase, WorkerPhase::Running)
                && !self.fell_back,
        }
    }

    /// Takes in an event that answers what the thread waits for, and says what to
    /// do next.
    pub fn step(&mut self, event: WorkerEvent) -> (action: WorkerAction)
        requires
            old(self)@.accepts(event),
        ensures
            (final(self)@, action@) == old(self)@.next(event),
            final(self)@.device_id == old(self)@.device_id,
            match event {
                WorkerEvent::Started => {
                    &&& action matches WorkerAction::Open(device_id)
                    &&& device_id is Some <==> old(self)@.device_id is Some
                    &&& device_id matches Some(id) ==> old(self)@.device_id == Some(id@)
                },
                WorkerEvent::Opened => action is TakeConsumer,
                WorkerEvent::OpenFailed => if old(self)@.phase is Opening {
                    action matches WorkerAction::Open(device_id) && device_id is None
                } else {
                    action is GiveUp
                },
                WorkerEvent::Connected { native_rate } => {
                    &&& action matches WorkerAction::Run {
                        native_rate: rate,
                        suppressor,
                        may_fall_back,
                    }
                    &&& rate == native_rate
                    &&& suppressor.profile is SystemAudio
                    &&& suppressor.native_sample_rate == 16000
                    &&& may_fall_back == !old(self)@.fell_back
                },
                WorkerEvent::NoConsumer => action is GiveUp,
                WorkerEvent::WentSilent => action matches WorkerAction::Open(device_id)
                    && device_id is None,
            },
    {
        match event {
            WorkerEvent::Started => {
                self.phase = WorkerPhase::Opening;
                WorkerAction::Open(copy_id(&self.device_id))
            },
            WorkerEvent::Opened => {
                self.phase = WorkerPhase::Connecting;
                WorkerAction::TakeConsumer
            },
            WorkerEvent::OpenFailed => {
                if let WorkerPhase::Opening = self.phase {
                    self.fell_back = true;
                    self.phase = WorkerPhase::FallingBack;
                    WorkerAction::Open(None)
                } else {
                    self.phase = WorkerPhase::Failed;
                    WorkerAction::GiveUp
                }
            },
            WorkerEvent::Connected { native_rate } => {
                self.phase = WorkerPhase::Running;
                WorkerAction::Run {
                    native_rate,
                    suppressor: SuppressorSetup {
                        profile: SuppressorProfile::SystemAudio,
                        native_sample_rate: OUTPUT_SAMPLE_RATE,
                    },
                    may_fall_back: !self.fell_back,
                }
            },
            WorkerEvent::NoConsumer => {
                self.phase = WorkerPhase::Failed;
                WorkerAction::GiveUp
            },
            WorkerEvent::WentSilent => {
                self.fell_back = true;
                self.phase = WorkerPhase::FallingBack;
                WorkerAction::Open(None)
            },
        }
    }
}

} // verus!
