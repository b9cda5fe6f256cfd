//! The signal-processing loop of a capture, as a state machine.
//!
//! One turn of the loop looks at the stop signal, drains the sample ring, has the
//! drained batch converted to 16-bit samples, cuts the converted samples into
//! frames of a fixed size, has each frame judged by the silence suppressor and
//! delivers what the verdict asks for; then it sleeps. Converting, judging,
//! delivering and sleeping are done outside: the machine says what to do next and
//! is told what came of it. An input that gives nothing but silence, frame after
//! frame, is left for another one where there is another one to try.

use crate::pcm::{i16_slice_to_le_bytes, is_all_silence, silent_frame_bytes};
#[allow(unused_imports)]
use crate::pcm::{is_silent, le_bytes, repeated};
use crate::ring::SampleConsumer;
#[allow(unused_imports)]
use crate::ring::{drain_moves_the_oldest, drained, taken, waiting};
use vstd::prelude::*;

verus! {

/// Samples in a frame of system audio: 20 ms at 16 kHz.
pub const SYSTEM_CHUNK_SIZE: usize = 320;

/// How many samples one turn takes from the ring of system audio at most.
pub const SYSTEM_BATCH_LIMIT: usize = 480;

/// How many frames of zeros in a row make the loop give its input up: three seconds
/// of them.
pub const SILENT_FRAMES_BEFORE_FALLBACK: usize = 150;

/// Which presets the silence suppressor starts from.
#[derive(Debug, Clone, Copy, PartialEq, Eq, Structural)]
pub enum SuppressorProfile {
    SystemAudio,
    Microphone,
}

/// How the silence suppressor of a capture is set up: the presets, with the rate
/// of the frames it will be given.
#[derive(Debug, Clone, Copy, PartialEq, Eq, Structural)]
pub struct SuppressorSetup {
    pub profile: SuppressorProfile,
    pub native_sample_rate: u32,
}

/// The silence suppressor's verdict on a frame.
#[derive(Debug, PartialEq, Eq)]
pub enum FrameAction {
    /// Deliver these samples.
    Send(Vec<i16>),
    /// Deliver a frame of silence.
    SendSilence,
    /// Deliver nothing.
    Suppress,
}

/// What the loop waits for.
#[derive(Debug, Clone, Copy, PartialEq, Eq, Structural)]
pub enum DspPhase {
    /// The next turn has not begun.
    Polling,
    /// A batch is being converted.
    Converting,
    /// A frame is being judged.
    Processing,
    /// A payload is being delivered for a frame whose verdict came with this
    /// end-of-speech flag.
    Delivering { speech_ended: bool },
    /// The end of speech is being reported.
    Notifying,
    /// The turn is over.
    Sleeping,
    /// The stop signal was seen.
    Stopped,
    /// The input was given up for its silence.
    GoneSilent,
}

/// What the loop is told.
#[derive(Debug, PartialEq, Eq)]
pub enum DspEvent {
    /// The stop signal is set.
    StopRequested,
    /// The stop signal is not set, and this batch was drained from the ring.
    Drained(Vec<u32>),
    /// The batch was converted to these samples.
    Converted(Vec<i16>),
    /// The frame was judged.
    Processed { action: FrameAction, speech_ended: bool },
    /// What was to be delivered, reported or slept is done.
    Done,
}

/// What the loop asks for.
#[derive(Debug, PartialEq, Eq)]
pub enum DspAction {
    /// Read the stop signal and begin the next turn.
    Poll,
    /// Convert this batch to 16-bit samples.
    Convert(Vec<u32>),
    /// Have the silence suppressor judge this frame.
    Process(Vec<i16>),
    /// Deliver these bytes.
    Deliver(Vec<u8>),
    /// Report that speech has ended.
    NotifySpeechEnded,
    /// Sleep for a moment.
    Sleep,
    /// Leave the loop, and fall back to another input.
    FallBack,
    /// Leave the loop.
    Exit,
}

/// The loop's state between two events.
pub struct DspLoop {
    chunk_size: usize,
    batch_limit: Option<usize>,
    reports_speech_end: bool,
    may_fall_back: bool,
    silent_frames: usize,
    frame_buffer: Vec<i16>,
    phase: DspPhase,
}

/// The model of [`FrameAction`].
pub enum VerdictModel {
    Send(Seq<i16>),
    SendSilence,
    Suppress,
}

/// The model of [`DspEvent`].
pub enum EventModel {
    StopRequested,
    Drained(Seq<u32>),
    Converted(Seq<i16>),
    Processed { verdict: VerdictModel, speech_ended: bool },
    Done,
}

/// The model of [`DspAction`].
pub enum ActionModel {
    Poll,
    Convert(Seq<u32>),
    Process(Seq<i16>),
    Deliver(Seq<u8>),
    NotifySpeechEnded,
    Sleep,
    FallBack,
    Exit,
}

/// The model of [`DspLoop`].
#[verifier::ext_equal]
pub struct DspModel {
    pub chunk_size: nat,
    pub batch_limit: Option<usize>,
    pub reports_speech_end: bool,
    /// There is another input to fall back to.
    pub may_fall_back: bool,
    /// How many frames in a row, up to the one cut last, were silent, counted as far
    /// as it takes to give an input up.
    pub silent_frames: nat,
    /// Converted samples that were not cut into a frame yet, oldest first.
    pub buffer: Seq<i16>,
    pub phase: DspPhase,
}

impl View for FrameAction {
    type V = VerdictModel;

    open spec fn view(&self) -> VerdictModel {
        match self {
            FrameAction::Send(data) => VerdictModel::Send(data@),
            FrameAction::SendSilence => VerdictModel::SendSilence,
            FrameAction::Suppress => VerdictModel::Suppress,
        }
    }
}

impl View for DspEvent {
    type V = EventModel;

    open spec fn view(&self) -> EventModel {
        match self {
            DspEvent::StopRequested => EventModel::StopRequested,
            DspEvent::Drained(batch) => EventModel::Drained(batch@),
            DspEvent::Converted(samples) => EventModel::Converted(samples@),
            DspEvent::Processed { action, speech_ended } => EventModel::Processed {
                verdict: action@,
                speech_ended: *speech_ended,
            },
            DspEvent::Done => EventModel::Done,
        }
    }
}

impl View for DspAction {
    type V = ActionModel;

    open spec fn view(&self) -> ActionModel {
        match self {
            DspAction::Poll => ActionModel::Poll,
            DspAction::Convert(batch) => ActionModel::Convert(batch@),
            DspAction::Process(frame) => ActionModel::Process(frame@),
            DspAction::Deliver(bytes) => ActionModel::Deliver(bytes@),
            DspAction::NotifySpeechEnded => ActionModel::NotifySpeechEnded,
            DspAction::Sleep => ActionModel::Sleep,
            DspAction::FallBack => ActionModel::FallBack,
            DspAction::Exit => ActionModel::Exit,
        }
    }
}

impl View for DspLoop {
    type V = DspModel;

    closed spec fn view(&self) -> DspModel {
        DspModel {
            chunk_size: self.chunk_size as nat,
            batch_limit: self.batch_limit,
            reports_speech_end: self.reports_speech_end,
            may_fall_back: self.may_fall_back,
            silent_frames: self.silent_frames as nat,
            buffer: self.frame_buffer@,
            phase: self.phase,
        }
    }
}

/// Samples in a frame of 20 ms at a native rate.
pub open spec fn chunk_size_at(native_rate: u32) -> nat {
    (native_rate * 20 / 1000) as nat
}

/// The bytes that a verdict has delivered, if any.
pub open spec fn payload(chunk_size: nat, verdict: VerdictModel) -> Option<Seq<u8>> {
    match verdict {
        VerdictModel::Send(data) => Some(le_bytes(data)),
        VerdictModel::SendSilence => Some(repeated(0u8, 2 * chunk_size)),
        VerdictModel::Suppress => None,
    }
}

/// The count of silent frames in a row after one more frame.
pub open spec fn silent_frames_after(count: nat, frame: Seq<i16>) -> nat {
    if !is_silent(frame) {
        0
    } else if count < SILENT_FRAMES_BEFORE_FALLBACK {
        count + 1
    } else {
        count
    }
}

impl DspModel {
    /// The loop of system audio at its start.
    pub open spec fn system_audio(may_fall_back: bool) -> DspModel {
        DspModel {
            chunk_size: SYSTEM_CHUNK_SIZE as nat,
            batch_limit: Some(SYSTEM_BATCH_LIMIT),
            reports_speech_end: false,
            may_fall_back,
            silent_frames: 0,
            buffer: Seq::empty(),
            phase: DspPhase::Polling,
        }
    }

    /// The loop of a microphone at its start.
    pub open spec fn microphone(native_rate: u32, has_listener: bool) -> DspModel {
        DspModel {
            chunk_size: chunk_size_at(native_rate),
            batch_limit: None,
            reports_speech_end: has_listener,
            may_fall_back: false,
            silent_frames: 0,
            buffer: Seq::empty(),
            phase: DspPhase::Polling,
        }
    }

    /// The event is an answer to what the loop waits for.
    pub open spec fn accepts(self, event: EventModel) -> bool {
        match event {
            EventModel::StopRequested | EventModel::Drained(_) => self.phase is Polling,
            EventModel::Converted(_) => self.phase is Converting,
            EventModel::Processed { .. } => self.phase is Processing,
            EventModel::Done => self.phase is Delivering || self.phase is Notifying
                || self.phase is Sleeping,
        }
    }

    pub open spec fn with_phase(self, phase: DspPhase) -> DspModel {
        DspModel { phase, ..self }
    }

    /// The input gave nothing but silence for long enough to be left for another.
    pub open spec fn gives_input_up(self) -> bool {
        self.may_fall_back && self.silent_frames >= SILENT_FRAMES_BEFORE_FALLBACK
    }

    /// A silent input is given up where there is another; else a frame is cut from the
    /// buffer where there is one; else the turn is over.
    pub open spec fn cut_or_sleep(self) -> (DspModel, ActionModel) {
        if self.gives_input_up() {
            (self.with_phase(DspPhase::GoneSilent), ActionModel::FallBack)
        } else if self.buffer.len() >= self.chunk_size {
            let frame = self.buffer.take(self.chunk_size as int);
            (
                DspModel {
                    silent_frames: silent_frames_after(self.silent_frames, frame),
                    buffer: self.buffer.skip(self.chunk_size as int),
                    phase: DspPhase::Processing,
                    ..self
                },
                ActionModel::Process(frame),
            )
        } else {
            (self.with_phase(DspPhase::Sleeping), ActionModel::Sleep)
        }
    }

    /// What follows the delivery of a frame's payload, if it had one.
    pub open spec fn delivered(self, speech_ended: bool) -> (DspModel, ActionModel) {
        if speech_ended && self.reports_speech_end {
            (self.with_phase(DspPhase::Notifying), ActionModel::NotifySpeechEnded)
        } else {
            self.cut_or_sleep()
        }
    }

    /// The state after an event, and what the loop asks for then.
    pub open spec fn next(self, event: EventModel) -> (DspModel, ActionModel)
        recommends
            self.accepts(event),
    {
        match event {
            EventModel::StopRequested => (self.with_phase(DspPhase::Stopped), ActionModel::Exit),
            EventModel::Drained(batch) => if batch.len() > 0 {
                (self.with_phase(DspPhase::Converting), ActionModel::Convert(batch))
            } else {
                self.cut_or_sleep()
            },
            EventModel::Converted(samples) => DspModel {
                buffer: self.buffer + samples,
                ..self
            }.cut_or_sleep(),
            EventModel::Processed { verdict, speech_ended } => match payload(
                self.chunk_size,
                verdict,
            ) {
                Some(bytes) => (
                    self.with_phase(DspPhase::Delivering { speech_ended }),
                    ActionModel::Deliver(bytes),
                ),
                None => self.delivered(speech_ended),
            },
            EventModel::Done => match self.phase {
                DspPhase::Delivering { speech_ended } => self.delivered(speech_ended),
                DspPhase::Notifying => self.cut_or_sleep(),
                _ => (self.with_phase(DspPhase::Polling), ActionModel::Poll),
            },
        }
    }

    /// One turn begins: with the stop signal set the loop leaves and the ring
    /// stays as it is; otherwise the ring is drained into a new batch.
    pub open spec fn begins_turn(
        self,
        stop: bool,
        before: SampleConsumer,
        batch: Seq<u32>,
        after: SampleConsumer,
        outcome: (DspModel, ActionModel),
    ) -> bool {
        if stop {
            after == before && outcome == self.next(EventModel::StopRequested)
        } else {
            &&& drained(before, after, self.batch_limit, Seq::empty(), batch)
            &&& outcome == self.next(EventModel::Drained(batch))
        }
    }
}

/// 20ms chunks at native rate.
pub fn chunk_size_for(native_rate: u32) -> (size: usize)
    ensures
        size == chunk_size_at(native_rate),
        1000 * size <= 20 * native_rate < 1000 * (size + 1),
{
    (native_rate / 50) as usize
}

/// The bytes to deliver for a verdict on a frame of `chunk_size` samples.
pub fn payload_for(chunk_size: usize, action: FrameAction) -> (bytes: Option<Vec<u8>>)
    requires
        2 * chunk_size <= usize::MAX,
    ensures
        match bytes {
            Some(bytes) => payload(chunk_size as nat, action@) == Some(bytes@),
            None => payload(chunk_size as nat, action@) is None,
        },
        match action {
            FrameAction::Send(data) => {
                &&& bytes matches Some(bytes)
                &&& bytes@.len() == 2 * data@.len()
                &&& forall|k: int|
                    0 <= k < data@.len() ==> bytes@[2 * k] + 0x100 * bytes@[2 * k + 1]
                        == #[trigger] data@[k] + if data@[k] < 0 {
                        0x1_0000int
                    } else {
                        0
                    }
            },
            FrameAction::SendSilence => {
                &&& bytes matches Some(bytes)
                &&& bytes@.len() == 2 * chunk_size
                &&& forall|k: int| 0 <= k < bytes@.len() ==> bytes@[k] == 0
            },
            FrameAction::Suppress => bytes is None,
        },
{
    match action {
        FrameAction::Send(data) => Some(i16_slice_to_le_bytes(&data)),
        FrameAction::SendSilence => Some(silent_frame_bytes(chunk_size)),
        FrameAction::Suppress => None,
    }
}

impl DspLoop {
    /// Twice a frame's size can be counted.
    #[verifier::type_invariant]
    spec fn sized(self) -> bool {
        2 * self.chunk_size <= usize::MAX
    }

    /// The loop for system audio, whose samples are converted to 16 kHz, on an input
    /// that may be left for another one or not.
    pub fn for_system_audio(may_fall_back: bool) -> (dsp: Self)
        ensures
            dsp@ == DspModel::system_audio(may_fall_back),
            dsp@.chunk_size == 320,
            dsp@.batch_limit == Some(480usize),
            !dsp@.reports_speech_end,
            dsp@.may_fall_back == may_fall_back,
            dsp@.silent_frames == 0,
            dsp@.buffer.len() == 0,
            dsp@.phase is Polling,
    {
        DspLoop {
            chunk_size: SYSTEM_CHUNK_SIZE,
            batch_limit: Some(SYSTEM_BATCH_LIMIT),
            reports_speech_end: false,
            may_fall_back,
            silent_frames: 0,
            frame_buffer: Vec::new(),
            phase: DspPhase::Polling,
        }
    }

    /// The loop for a microphone, whose samples keep their native rate. The end of
    /// speech is reported where somebody listens.
    pub fn for_microphone(native_rate: u32, has_listener: bool) -> (dsp: Self)
        ensures
            dsp@ == DspModel::microphone(native_rate, has_listener),
            1000 * dsp@.chunk_size <= 20 * native_rate < 1000 * (dsp@.chunk_size + 1),
            dsp@.batch_limit is None,
            dsp@.reports_speech_end == has_listener,
            !dsp@.may_fall_back,
            dsp@.silent_frames == 0,
            dsp@.buffer.len() == 0,
            dsp@.phase is Polling,
    {
        DspLoop {
            chunk_size: chunk_size_for(native_rate),
            batch_limit: None,
            reports_speech_end: has_listener,
            may_fall_back: false,
            silent_frames: 0,
            frame_buffer: Vec::new(),
            phase: DspPhase::Polling,
        }
    }

    /// What the loop waits for.
    pub fn phase(&self) -> (phase: DspPhase)
        ensures
            phase == self@.phase,
    {
        self.phase
    }

    /// Samples in a frame.
    pub fn chunk_size(&self) -> (size: usize)
        ensures
            size == self@.chunk_size,
    {
        self.chunk_size
    }

    /// Takes note of a frame that was cut.
    fn note_frame(&mut self, frame: &Vec<i16>)
        ensures
            final(self)@ == (DspModel {
                silent_frames: silent_frames_after(old(self)@.silent_frames, frame@),
                ..old(self)@
            }),
    {
        proof {
            use_type_invariant(&*self);
        }
        if !is_all_silence(frame) {
            self.silent_frames = 0;
        } else if self.silent_frames < SILENT_FRAMES_BEFORE_FALLBACK {
            self.silent_frames = self.silent_frames + 1;
        }
    }

    fn cut_or_sleep(&mut self) -> (action: DspAction)
        ensures
            (final(self)@, action@) == old(self)@.cut_or_sleep(),
    {
        proof {
            use_type_invariant(&*self);
        }
        if self.may_fall_back && self.silent_frames >= SILENT_FRAMES_BEFORE_FALLBACK {
            self.phase = DspPhase::GoneSilent;
            DspAction::FallBack
        } else if self.frame_buffer.len() >= self.chunk_size {
            let mut frame: Vec<i16> = Vec::new();
            std::mem::swap(&mut frame, &mut self.frame_buffer);
            self.frame_buffer = frame.split_off(self.chunk_size);
            self.note_frame(&frame);
            self.phase = DspPhase::Processing;
            DspAction::Process(frame)
        } else {
            self.phase = DspPhase::Sleeping;
            DspAction::Sleep
        }
    }

    fn delivered(&mut self, speech_ended: bool) -> (action: DspAction)
        ensures
            (final(self)@, action@) == old(self)@.delivered(speech_ended),
    {
        proof {
            use_type_invariant(&*self);
        }
        if speech_ended && self.reports_speech_end {
            self.phase = DspPhase::Notifying;
            DspAction::NotifySpeechEnded
        } else {
            self.cut_or_sleep()
        }
    }

    /// The event is an answer to what the loop waits for.
    pub fn accepts(&self, event: &DspEvent) -> (accepted: bool)
        ensures
            accepted == self@.accepts(event@),
            accepted == match self@.phase {
                DspPhase::Polling => event is StopRequested || event is Drained,
                DspPhase::Converting => event is Converted,
                DspPhase::Processing => event is Processed,
                DspPhase::Delivering { .. } => event is Done,
                DspPhase::Notifying => event is Done,
                DspPhase::Sleeping => event is Done,
                DspPhase::Stopped => false,
                DspPhase::GoneSilent => false,
            },
    {
        match event {
            DspEvent::StopRequested | DspEvent::Drained(_) => matches!(self.phase, DspPhase::Polling),
            DspEvent::Converted(_) => matches!(self.phase, DspPhase::Converting),
            DspEvent::Processed { .. } => matches!(self.phase, DspPhase::Processing),
            DspEvent::Done => matches!(
                self.phase,
                DspPhase::Delivering { .. } | DspPhase::Notifying | DspPhase::Sleeping
            ),
        }
    }

    /// Takes in an event that answers what the loop waits for, and says what to do
    /// next.
    pub fn step(&mut self, event: DspEvent) -> (action: DspAction)
        requires
            old(self)@.accepts(event@),
        ensures
            (final(self)@, action@) == old(self)@.next(event@),
            action is Exit <==> event is StopRequested,
            match event {
                DspEvent::Drained(batch) => if batch@.len() > 0 {
                    action matches DspAction::Convert(asked) && asked@ == batch@
                } else {
                    action is Process || action is Sleep || action is FallBack
                },
                DspEvent::Processed { action: FrameAction::Send(data), .. } => {
                    &&& action matches DspAction::Deliver(bytes)
                    &&& bytes@.len() == 2 * data@.len()
                    &&& forall|k: int|
                        0 <= k < data@.len() ==> bytes@[2 * k] + 0x100 * bytes@[2 * k + 1]
                            == #[trigger] data@[k] + if data@[k] < 0 {
                            0x1_0000int
                        } else {
                            0
                        }
                },
                DspEvent::Processed { action: FrameAction::SendSilence, .. } => {
                    &&& action matches DspAction::Deliver(bytes)
                    &&& bytes@.len() == 2 * old(self)@.chunk_size
                    &&& forall|k: int| 0 <= k < bytes@.len() ==> bytes@[k] == 0
                },
                _ => !(action is Deliver) && !(action is Convert),
            },
    {
        proof {
            use_type_invariant(&*self);
        }
        match event {
            DspEvent::StopRequested => {
                self.phase = DspPhase::Stopped;
                DspAction::Exit
            },
            DspEvent::Drained(batch) => {
                if batch.len() > 0 {
                    self.phase = DspPhase::Converting;
                    DspAction::Convert(batch)
                } else {
                    self.cut_or_sleep()
                }
            },
            DspEvent::Converted(samples) => {
                let mut samples = samples;
                let mut buffer: Vec<i16> = Vec::new();
                std::mem::swap(&mut buffer, &mut self.frame_buffer);
                buffer.append(&mut samples);
                self.frame_buffer = buffer;
                self.cut_or_sleep()
            },
            DspEvent::Processed { action, speech_ended } => {
                match payload_for(self.chunk_size, action) {
                    Some(bytes) => {
                        self.phase = DspPhase::Delivering { speech_ended };
                        DspAction::Deliver(bytes)
                    },
                    None => self.delivered(speech_ended),
                }
            },
            DspEvent::Done => {
                match self.phase {
                    DspPhase::Delivering { speech_ended } => self.delivered(speech_ended),
                    DspPhase::Notifying => self.cut_or_sleep(),
                    _ => {
                        self.phase = DspPhase::Polling;
                        DspAction::Poll
                    },
                }
            },
        }
    }

    /// Begins a turn: with the stop signal set, leaves; otherwise drains the ring
    /// and goes on with the batch. Every sample taken out of the ring is handed on
    /// for conversion.
    pub fn poll(&mut self, stop: bool, consumer: &mut SampleConsumer) -> (action: DspAction)
        requires
            old(self)@.phase is Polling,
        ensures
            exists|batch: Seq<u32>| #[trigger]
                old(self)@.begins_turn(
                    stop,
                    *old(consumer),
                    batch,
                    *final(consumer),
                    (final(self)@, action@),
                ),
            taken(*final(consumer)) == match action@ {
                ActionModel::Convert(batch) => taken(*old(consumer)) + batch,
                _ => taken(*old(consumer)),
            },
            stop ==> {
                &&& action is Exit
                &&& final(self)@.phase is Stopped
                &&& final(self)@.buffer == old(self)@.buffer
                &&& *final(consumer) == *old(consumer)
            },
            !stop ==> {
                let batch = taken(*final(consumer)).skip(taken(*old(consumer)).len() as int);
                &&& !(action is Exit)
                &&& !(final(self)@.phase is Stopped)
                &&& (final(self)@, action@) == old(self)@.next(EventModel::Drained(batch))
                &&& taken(*final(consumer)) == taken(*old(consumer)) + batch
                &&& exists|arrived: Seq<u32>|
                    taken(*final(consumer)) + waiting(*final(consumer)) == #[trigger] (taken(
                        *old(consumer),
                    ) + waiting(*old(consumer)) + arrived)
                &&& batch.len() == 0 ==> waiting(*old(consumer)).len() == 0
                &&& batch.len() > 0 ==> {
                    &&& action matches DspAction::Convert(asked)
                    &&& asked@ == batch
                }
                &&& old(self)@.batch_limit is None ==> waiting(*final(consumer)).len() == 0
                &&& old(self)@.batch_limit matches Some(size) ==> {
                    &&& batch.len() <= size || batch.len() <= 1
                    &&& batch.len() < size ==> waiting(*final(consumer)).len() == 0
                }
            },
    {
        if stop {
            let action = self.step(DspEvent::StopRequested);
            assert(old(self)@.begins_turn(
                stop,
                *old(consumer),
                Seq::empty(),
                *consumer,
                (self@, action@),
            ));
            action
        } else {
            let mut batch: Vec<u32> = Vec::new();
            consumer.drain_into(&mut batch, self.batch_limit);
            let ghost moved = batch@;
            let action = self.step(DspEvent::Drained(batch));
            proof {
                assert(moved.skip(0) =~= moved);
                drain_moves_the_oldest(
                    *old(consumer),
                    *consumer,
                    old(self)@.batch_limit,
                    Seq::empty(),
                    moved,
                );
                assert(taken(*consumer).skip(taken(*old(consumer)).len() as int) =~= moved);
                assert(old(self)@.begins_turn(
                    stop,
                    *old(consumer),
                    moved,
                    *consumer,
                    (self@, action@),
                ));
            }
            action
        }
    }
}

} // verus!
