//! What holds of every run of the signal-processing loop.

#[allow(unused_imports)]
use crate::dsp::{
    chunk_size_at, payload, silent_frames_after, ActionModel, DspAction, DspEvent, DspModel,
    DspPhase, EventModel, FrameAction, VerdictModel, SILENT_FRAMES_BEFORE_FALLBACK,
};
#[allow(unused_imports)]
use crate::pcm::{
    bytes_of_each_sample, decoded_parts_join, is_silent, le_bytes, le_bytes_round_trip,
    no_samples_no_bytes, repeated, samples_of_le_bytes, silence_is_zeros,
};
#[allow(unused_imports)]
use crate::ring::{drain_moves_the_oldest, taken, waiting, SampleConsumer};
use vstd::prelude::*;

verus! {

impl DspModel {
    /// Every event of the run answers what the loop waited for.
    pub open spec fn can_run(self, events: Seq<EventModel>) -> bool
        decreases events.len(),
    {
        events.len() > 0 ==> {
            &&& self.accepts(events[0])
            &&& self.next(events[0]).0.can_run(events.drop_first())
        }
    }

    /// The state at the end of a run.
    pub open spec fn run(self, events: Seq<EventModel>) -> DspModel
        decreases events.len(),
    {
        if events.len() == 0 {
            self
        } else {
            self.next(events[0]).0.run(events.drop_first())
        }
    }

    /// What the loop asks for in the course of a run, one action for each event.
    pub open spec fn actions(self, events: Seq<EventModel>) -> Seq<ActionModel>
        decreases events.len(),
    {
        if events.len() == 0 {
            Seq::empty()
        } else {
            seq![self.next(events[0]).1] + self.next(events[0]).0.actions(events.drop_first())
        }
    }

    /// Every conversion of the run answers the batch it was asked for one for one: each
    /// sample of the batch, `pending` when the run begins, became what `convert` says.
    pub open spec fn converts_each(
        self,
        pending: Seq<u32>,
        events: Seq<EventModel>,
        convert: spec_fn(u32) -> i16,
    ) -> bool
        decreases events.len(),
    {
        events.len() > 0 ==> {
            let (after, action) = self.next(events[0]);
            let asked = match action {
                ActionModel::Convert(batch) => batch,
                _ => pending,
            };
            &&& events[0] matches EventModel::Converted(samples) ==> samples
                == pending.map_values(convert)
            &&& after.converts_each(asked, events.drop_first(), convert)
        }
    }

    /// A bound on the steps that are left until the turn is over.
    pub open spec fn steps_left(self) -> nat {
        4 * self.buffer.len() + match self.phase {
            DspPhase::Processing => 4nat,
            DspPhase::Delivering { .. } => 3,
            DspPhase::Notifying => 2,
            DspPhase::Sleeping => 1,
            _ => 0,
        }
    }

    /// An end of speech that is still to be reported.
    pub open spec fn owes_notice(self) -> nat {
        if self.reports_speech_end && self.phase == (DspPhase::Delivering { speech_ended: true }) {
            1
        } else {
            0
        }
    }
}

/// The samples that a run's conversions gave, in order.
pub open spec fn converted(events: Seq<EventModel>) -> Seq<i16>
    decreases events.len(),
{
    if events.len() == 0 {
        Seq::empty()
    } else {
        let rest = converted(events.drop_first());
        match events[0] {
            EventModel::Converted(samples) => samples + rest,
            _ => rest,
        }
    }
}

/// The samples that a run drained from the ring, in order.
pub open spec fn popped(events: Seq<EventModel>) -> Seq<u32>
    decreases events.len(),
{
    if events.len() == 0 {
        Seq::empty()
    } else {
        let rest = popped(events.drop_first());
        match events[0] {
            EventModel::Drained(batch) => batch + rest,
            _ => rest,
        }
    }
}

/// The batches that a run had converted, in order.
pub open spec fn batches(actions: Seq<ActionModel>) -> Seq<Seq<u32>>
    decreases actions.len(),
{
    if actions.len() == 0 {
        Seq::empty()
    } else {
        let rest = batches(actions.drop_first());
        match actions[0] {
            ActionModel::Convert(batch) => seq![batch] + rest,
            _ => rest,
        }
    }
}

/// The frames that a run had judged, in order.
pub open spec fn frames(actions: Seq<ActionModel>) -> Seq<Seq<i16>>
    decreases actions.len(),
{
    if actions.len() == 0 {
        Seq::empty()
    } else {
        let rest = frames(actions.drop_first());
        match actions[0] {
            ActionModel::Process(frame) => seq![frame] + rest,
            _ => rest,
        }
    }
}

/// The payloads that a run delivered, in order.
pub open spec fn deliveries(actions: Seq<ActionModel>) -> Seq<Seq<u8>>
    decreases actions.len(),
{
    if actions.len() == 0 {
        Seq::empty()
    } else {
        let rest = deliveries(actions.drop_first());
        match actions[0] {
            ActionModel::Deliver(bytes) => seq![bytes] + rest,
            _ => rest,
        }
    }
}

/// The payloads that a run's verdicts ask for, in order.
pub open spec fn payloads(chunk_size: nat, events: Seq<EventModel>) -> Seq<Seq<u8>>
    decreases events.len(),
{
    if events.len() == 0 {
        Seq::empty()
    } else {
        let rest = payloads(chunk_size, events.drop_first());
        match events[0] {
            EventModel::Processed { verdict, .. } => match payload(chunk_size, verdict) {
                Some(bytes) => seq![bytes] + rest,
                None => rest,
            },
            _ => rest,
        }
    }
}

/// How often a run reported the end of speech.
pub open spec fn notices(actions: Seq<ActionModel>) -> nat
    decreases actions.len(),
{
    if actions.len() == 0 {
        0
    } else {
        notices(actions.drop_first()) + if actions[0] is NotifySpeechEnded {
            1nat
        } else {
            0
        }
    }
}

/// In how many of a run's verdicts speech had ended.
pub open spec fn speech_ends(events: Seq<EventModel>) -> nat
    decreases events.len(),
{
    if events.len() == 0 {
        0
    } else {
        speech_ends(events.drop_first()) + match events[0] {
            EventModel::Processed { speech_ended: true, .. } => 1nat,
            _ => 0nat,
        }
    }
}

/// A verdict, an event and an action are spoken of by what they hold: every sample and
/// every byte of them, and nothing else.
pub proof fn models_say_everything(verdict: FrameAction, event: DspEvent, action: DspAction)
    ensures
        match verdict {
            FrameAction::Send(data) => verdict@ == VerdictModel::Send(data@),
            FrameAction::SendSilence => verdict@ is SendSilence,
            FrameAction::Suppress => verdict@ is Suppress,
        },
        match event {
            DspEvent::StopRequested => event@ is StopRequested,
            DspEvent::Drained(batch) => event@ == EventModel::Drained(batch@),
            DspEvent::Converted(samples) => event@ == EventModel::Converted(samples@),
            DspEvent::Processed { action, speech_ended } => event@ == (EventModel::Processed {
                verdict: action@,
                speech_ended,
            }),
            DspEvent::Done => event@ is Done,
        },
        match action {
            DspAction::Poll => action@ is Poll,
            DspAction::Convert(batch) => action@ == ActionModel::Convert(batch@),
            DspAction::Process(frame) => action@ == ActionModel::Process(frame@),
            DspAction::Deliver(bytes) => action@ == ActionModel::Deliver(bytes@),
            DspAction::NotifySpeechEnded => action@ is NotifySpeechEnded,
            DspAction::Sleep => action@ is Sleep,
            DspAction::FallBack => action@ is FallBack,
            DspAction::Exit => action@ is Exit,
        },
{
}

/// A frame holds the samples of 20 ms, a last one that is not whole left out. The loop
/// of a microphone begins with an empty buffer, takes all that the ring holds, never
/// leaves its input for its silence, and reports the end of speech at every rate where
/// somebody listens, and only there.
pub proof fn microphone_loop_begins(native_rate: u32, has_listener: bool)
    ensures
        1000 * chunk_size_at(native_rate) <= 20 * native_rate,
        20 * native_rate < 1000 * (chunk_size_at(native_rate) + 1),
        ({
            let begun = DspModel::microphone(native_rate, has_listener);
            &&& begun.chunk_size == chunk_size_at(native_rate)
            &&& begun.batch_limit is None
            &&& begun.reports_speech_end == has_listener
            &&& !begun.may_fall_back
            &&& begun.silent_frames == 0
            &&& begun.buffer.len() == 0
            &&& begun.phase is Polling
        }),
{
}

/// The loop of system audio begins with an empty buffer, cuts frames of 20 ms at the rate
/// after conversion, takes 480 samples at a time, reports no end of speech, and may leave
/// its input exactly where it was told that it may: after three seconds of silence.
pub proof fn system_loop_begins(may_fall_back: bool)
    ensures
        ({
            let begun = DspModel::system_audio(may_fall_back);
            &&& begun.chunk_size == chunk_size_at(crate::system::OUTPUT_SAMPLE_RATE)
            &&& begun.chunk_size == 320
            &&& begun.batch_limit == Some(480usize)
            &&& !begun.reports_speech_end
            &&& begun.may_fall_back == may_fall_back
            &&& begun.silent_frames == 0
            &&& begun.buffer.len() == 0
            &&& begun.phase is Polling
            &&& SILENT_FRAMES_BEFORE_FALLBACK * begun.chunk_size == 3 * 16000
        }),
{
}

/// The loop takes exactly the events that answer what it asked for, whatever they hold:
/// the stop signal or a batch when it polls, samples for a batch, a verdict for a frame,
/// and word that a payload, a report or a sleep is done. When it has left it takes none.
pub proof fn answers_are_accepted(state: DspModel, event: EventModel)
    ensures
        state.accepts(event) <==> match state.phase {
            DspPhase::Polling => event is StopRequested || event is Drained,
            DspPhase::Converting => event is Converted,
            DspPhase::Processing => event is Processed,
            DspPhase::Delivering { .. } => event is Done,
            DspPhase::Notifying => event is Done,
            DspPhase::Sleeping => event is Done,
            DspPhase::Stopped => false,
            DspPhase::GoneSilent => false,
        },
{
}

/// What the loop waits for is what it asked for last; while a payload is delivered it
/// remembers whether that frame's verdict ended speech.
pub proof fn phase_tells_what_was_asked(state: DspModel, event: EventModel)
    requires
        state.accepts(event),
    ensures
        ({
            let (after, action) = state.next(event);
            &&& action is Poll <==> after.phase is Polling
            &&& action is Convert <==> after.phase is Converting
            &&& action is Process <==> after.phase is Processing
            &&& action is Deliver <==> after.phase is Delivering
            &&& action is NotifySpeechEnded <==> after.phase is Notifying
            &&& action is Sleep <==> after.phase is Sleeping
            &&& action is FallBack <==> after.phase is GoneSilent
            &&& action is Exit <==> after.phase is Stopped
            &&& after.phase matches DspPhase::Delivering { speech_ended: kept } ==> {
                &&& event matches EventModel::Processed { speech_ended, .. }
                &&& kept == speech_ended
            }
        }),
{
}

/// A step changes no setting, adds to the buffer exactly the samples that were converted,
/// at its end, and takes from it exactly the frame that is to be judged, at its front;
/// that frame has the size of a frame.
pub proof fn step_keeps_every_sample(state: DspModel, event: EventModel)
    requires
        state.accepts(event),
    ensures
        ({
            let (after, action) = state.next(event);
            let held = match event {
                EventModel::Converted(samples) => state.buffer + samples,
                _ => state.buffer,
            };
            &&& after.chunk_size == state.chunk_size
            &&& after.batch_limit == state.batch_limit
            &&& after.reports_speech_end == state.reports_speech_end
            &&& after.may_fall_back == state.may_fall_back
            &&& match action {
                ActionModel::Process(frame) => frame.len() == state.chunk_size && frame
                    + after.buffer == held,
                _ => after.buffer == held,
            }
        }),
{
    step_conserves(state, event);
}

/// A batch that holds anything is converted, whole and as it is, whatever else the loop
/// holds; nothing else is.
pub proof fn batches_are_converted(state: DspModel, event: EventModel)
    requires
        state.accepts(event),
    ensures
        match event {
            EventModel::Drained(batch) => batch.len() > 0 ==> state.next(event).1
                == ActionModel::Convert(batch),
            _ => true,
        },
        state.next(event).1 is Convert ==> {
            &&& event matches EventModel::Drained(batch)
            &&& batch.len() > 0
        },
{
}

/// A payload is delivered for exactly the verdicts that let something through, whatever
/// else the loop holds: two bytes for each sample that was let through and no others, or
/// two zero bytes for each sample of a frame and no others.
pub proof fn verdicts_are_delivered(state: DspModel, event: EventModel, k: int)
    requires
        state.accepts(event),
    ensures
        match event {
            EventModel::Processed { verdict: VerdictModel::Send(data), .. } => {
                &&& state.next(event).1 matches ActionModel::Deliver(bytes)
                &&& bytes.len() == 2 * data.len()
                &&& 0 <= k < data.len() ==> bytes[2 * k] + 0x100 * bytes[2 * k + 1] == data[k]
                    + if data[k] < 0 {
                    0x1_0000int
                } else {
                    0
                }
            },
            EventModel::Processed { verdict: VerdictModel::SendSilence, .. } => {
                &&& state.next(event).1 matches ActionModel::Deliver(bytes)
                &&& bytes.len() == 2 * state.chunk_size
                &&& 0 <= k < bytes.len() ==> bytes[k] == 0
            },
            _ => !(state.next(event).1 is Deliver),
        },
{
    if let EventModel::Processed { verdict: VerdictModel::Send(data), .. } = event {
        if 0 <= k < data.len() {
            bytes_of_each_sample(data, k);
        }
    }
}

/// The end of speech is reported, where it is to be reported at all, in exactly two
/// places, whatever else the loop holds: right after a verdict that ended it and had
/// nothing delivered, and after the payload of one that did.
pub proof fn notice_follows_the_payload(state: DspModel, event: EventModel)
    requires
        state.accepts(event),
    ensures
        state.next(event).1 is NotifySpeechEnded <==> state.reports_speech_end && match event {
            EventModel::Processed { verdict, speech_ended } => verdict is Suppress && speech_ended,
            EventModel::Done => state.phase == (DspPhase::Delivering { speech_ended: true }),
            _ => false,
        },
{
}

/// With nothing left to convert, deliver or report, the loop leaves a silent input where
/// it may, else has the next frame judged where there is one, else sleeps; it polls again
/// exactly after a sleep.
pub proof fn loop_goes_on(state: DspModel, event: EventModel)
    requires
        state.accepts(event),
    ensures
        ({
            let (after, action) = state.next(event);
            let silent = state.may_fall_back && state.silent_frames >= 150;
            let held = match event {
                EventModel::Converted(samples) => state.buffer.len() + samples.len(),
                _ => state.buffer.len(),
            };
            &&& action is Poll <==> state.phase is Sleeping
            &&& action is FallBack ==> silent
            &&& action is Process ==> !silent && held >= state.chunk_size
            &&& action is Sleep ==> !silent && held < state.chunk_size
        }),
{
}

/// A frame of zeros adds one to the count of silent frames, as far as it is counted at
/// all; a frame that holds anything else begins it anew; nothing else changes it.
pub proof fn step_counts_silence(state: DspModel, event: EventModel)
    requires
        state.accepts(event),
    ensures
        ({
            let (after, action) = state.next(event);
            match action {
                ActionModel::Process(frame) => {
                    &&& (forall|k: int| 0 <= k < frame.len() ==> frame[k] == 0)
                        ==> after.silent_frames == if state.silent_frames < 150 {
                        state.silent_frames + 1
                    } else {
                        state.silent_frames
                    }
                    &&& (exists|k: int| 0 <= k < frame.len() && frame[k] != 0)
                        ==> after.silent_frames == 0
                },
                _ => after.silent_frames == state.silent_frames,
            }
        }),
{
    if let ActionModel::Process(frame) = state.next(event).1 {
        silence_is_zeros(frame);
    }
}

/// The stop signal is obeyed at the beginning of every turn, whatever is left in the
/// buffer and in the ring: the loop leaves, and nothing is taken. Without it the loop
/// never leaves there: it takes what the ring holds, the oldest first and all of it or as
/// much as its limit lets it, and has all that it took converted.
pub proof fn stop_signal_is_obeyed(
    state: DspModel,
    stop: bool,
    before: SampleConsumer,
    batch: Seq<u32>,
    after: SampleConsumer,
    outcome: (DspModel, ActionModel),
)
    requires
        state.phase is Polling,
        state.begins_turn(stop, before, batch, after, outcome),
    ensures
        stop ==> {
            &&& outcome.1 is Exit
            &&& outcome.0.phase is Stopped
            &&& outcome.0.buffer == state.buffer
            &&& after == before
        },
        !stop ==> {
            &&& !(outcome.1 is Exit)
            &&& !(outcome.0.phase is Stopped)
            &&& outcome.0.buffer.len() <= state.buffer.len()
            &&& taken(after) == taken(before) + batch
            &&& exists|arrived: Seq<u32>|
                taken(after) + waiting(after) == #[trigger] (taken(before) + waiting(before)
                    + arrived)
            &&& batch.len() == 0 ==> waiting(before).len() == 0
            &&& batch.len() > 0 ==> outcome.1 == ActionModel::Convert(batch)
            &&& state.batch_limit is None ==> waiting(after).len() == 0
            &&& state.batch_limit matches Some(size) ==> {
                &&& batch.len() <= size || batch.len() <= 1
                &&& batch.len() < size ==> waiting(after).len() == 0
            }
        },
{
    if !stop {
        drain_moves_the_oldest(before, after, state.batch_limit, Seq::empty(), batch);
        assert(batch.skip(0) =~= batch);
    }
}

/// Unfolds a run by its first event.
proof fn first_of_run(state: DspModel, events: Seq<EventModel>)
    requires
        events.len() > 0,
    ensures
        state.actions(events).len() > 0,
        state.actions(events)[0] == state.next(events[0]).1,
        state.actions(events).drop_first() == state.next(events[0]).0.actions(
            events.drop_first(),
        ),
{
    assert(state.actions(events).drop_first() =~= state.next(events[0]).0.actions(
        events.drop_first(),
    ));
}

/// A run keeps the settings that the loop started with.
pub proof fn settings_never_change(state: DspModel, events: Seq<EventModel>)
    requires
        state.can_run(events),
    ensures
        state.run(events).chunk_size == state.chunk_size,
        state.run(events).batch_limit == state.batch_limit,
        state.run(events).reports_speech_end == state.reports_speech_end,
        state.run(events).may_fall_back == state.may_fall_back,
    decreases events.len(),
{
    if events.len() > 0 {
        settings_never_change(state.next(events[0]).0, events.drop_first());
    }
}

/// No converted sample is lost, repeated or reordered: the frames of a run, joined,
/// and what is left in the buffer at its end are the samples of the buffer at its
/// start and those that were converted in its course.
pub proof fn samples_are_conserved(state: DspModel, events: Seq<EventModel>)
    requires
        state.can_run(events),
    ensures
        frames(state.actions(events)).flatten() + state.run(events).buffer == state.buffer
            + converted(events),
    decreases events.len(),
{
    if events.len() == 0 {
        assert(frames(state.actions(events)) == Seq::<Seq<i16>>::empty());
        assert(Seq::<Seq<i16>>::empty().flatten() =~= Seq::<i16>::empty());
        assert(frames(state.actions(events)).flatten() + state.buffer =~= state.buffer + converted(
            events,
        ));
    } else {
        let (after, action) = state.next(events[0]);
        let rest = events.drop_first();
        samples_are_conserved(after, rest);
        first_of_run(state, events);
        let tail = frames(after.actions(rest));
        let end = after.run(rest).buffer;
        assert(tail.flatten() + end == after.buffer + converted(rest));
        step_conserves(state, events[0]);
        let held = held_with(state, events[0]);
        assert(state.buffer + converted(events) =~= held + converted(rest));
        match action {
            ActionModel::Process(frame) => {
                assert(frames(state.actions(events)) == seq![frame] + tail);
                assert((seq![frame] + tail).first() == frame);
                assert((seq![frame] + tail).drop_first() =~= tail);
                assert((seq![frame] + tail).flatten() == frame + tail.flatten());
                assert((frame + tail.flatten()) + end =~= frame + (tail.flatten() + end));
                assert(frame + (after.buffer + converted(rest)) =~= (frame + after.buffer)
                    + converted(rest));
            },
            _ => {
                assert(frames(state.actions(events)) == tail);
            },
        }
    }
}

/// The buffer with what an event adds to it.
spec fn held_with(state: DspModel, event: EventModel) -> Seq<i16> {
    match event {
        EventModel::Converted(samples) => state.buffer + samples,
        _ => state.buffer,
    }
}

proof fn step_conserves(state: DspModel, event: EventModel)
    ensures
        match state.next(event).1 {
            ActionModel::Process(frame) => frame + state.next(event).0.buffer == held_with(
                state,
                event,
            ),
            _ => state.next(event).0.buffer == held_with(state, event),
        },
{
    let held = held_with(state, event);
    if held.len() >= state.chunk_size {
        assert(held.take(state.chunk_size as int) + held.skip(state.chunk_size as int) =~= held);
    }
}

/// Every frame that is judged has exactly the size of a frame.
pub proof fn frames_have_chunk_size(state: DspModel, events: Seq<EventModel>, k: int)
    requires
        state.can_run(events),
        0 <= k < frames(state.actions(events)).len(),
    ensures
        frames(state.actions(events))[k].len() == state.chunk_size,
    decreases events.len(),
{
    if events.len() > 0 {
        let (after, action) = state.next(events[0]);
        let rest = events.drop_first();
        first_of_run(state, events);
        let tail = frames(after.actions(rest));
        match action {
            ActionModel::Process(frame) => {
                if k > 0 {
                    assert(frames(state.actions(events))[k] == tail[k - 1]);
                    frames_have_chunk_size(after, rest, k - 1);
                }
            },
            _ => {
                frames_have_chunk_size(after, rest, k);
            },
        }
    }
}

/// One of equally long runs, found in the runs joined.
proof fn flat_slice(parts: Seq<Seq<i16>>, len: nat, k: int)
    requires
        forall|j: int| 0 <= j < parts.len() ==> #[trigger] parts[j].len() == len,
        0 <= k < parts.len(),
    ensures
        0 <= k * len,
        k * len + len <= parts.flatten().len(),
        parts.flatten().subrange(k * len, k * len + len) == parts[k],
    decreases parts.len(),
{
    let rest = parts.drop_first();
    assert forall|j: int| 0 <= j < rest.len() implies #[trigger] rest[j].len() == len by {
        assert(rest[j] == parts[j + 1]);
    }
    let first = parts[0];
    assert(first.len() == len);
    assert(parts.flatten() == first + rest.flatten());
    if k == 0 {
        assert(0 * len == 0) by (nonlinear_arith);
        assert(parts.flatten().subrange(0, len as int) =~= first);
    } else {
        flat_slice(rest, len, k - 1);
        assert(k * len == (k - 1) * len + len) by (nonlinear_arith);
        assert(rest[k - 1] == parts[k]);
        assert(parts.flatten().subrange(k * len, k * len + len) =~= rest.flatten().subrange(
            (k - 1) * len,
            (k - 1) * len + len,
        ));
    }
}

/// The k-th frame of a run is the k-th slice of what was in the buffer at its start,
/// followed by what was converted in its course.
pub proof fn frames_are_slices(state: DspModel, events: Seq<EventModel>, k: int)
    requires
        state.can_run(events),
        0 <= k < frames(state.actions(events)).len(),
    ensures
        0 <= k * state.chunk_size,
        k * state.chunk_size + state.chunk_size <= (state.buffer + converted(events)).len(),
        frames(state.actions(events))[k] == (state.buffer + converted(events)).subrange(
            k * state.chunk_size,
            k * state.chunk_size + state.chunk_size,
        ),
{
    let cut = frames(state.actions(events));
    let c = state.chunk_size;
    assert forall|j: int| 0 <= j < cut.len() implies #[trigger] cut[j].len() == c by {
        frames_have_chunk_size(state, events, j);
    }
    flat_slice(cut, c, k);
    samples_are_conserved(state, events);
    let all = state.buffer + converted(events);
    assert(all == cut.flatten() + state.run(events).buffer);
    assert(all.subrange(k * c, k * c + c) =~= cut.flatten().subrange(k * c, k * c + c));
}

/// Every sample drained from the ring is handed on for conversion, in order: the
/// batches that a run had converted, joined, are what it drained.
pub proof fn batches_are_the_popped_samples(state: DspModel, events: Seq<EventModel>)
    requires
        state.can_run(events),
    ensures
        batches(state.actions(events)).flatten() == popped(events),
    decreases events.len(),
{
    if events.len() == 0 {
        assert(Seq::<Seq<u32>>::empty().flatten() =~= Seq::<u32>::empty());
    } else {
        let (after, action) = state.next(events[0]);
        let rest = events.drop_first();
        batches_are_the_popped_samples(after, rest);
        first_of_run(state, events);
        let tail = batches(after.actions(rest));
        match action {
            ActionModel::Convert(batch) => {
                assert((seq![batch] + tail).first() == batch);
                assert((seq![batch] + tail).drop_first() =~= tail);
                assert((seq![batch] + tail).flatten() == batch + tail.flatten());
            },
            _ => {
                if let EventModel::Drained(batch) = events[0] {
                    assert(batch + popped(rest) =~= popped(rest));
                }
            },
        }
    }
}

/// What was converted one for one, followed by what is being converted, is what was
/// drained.
proof fn converted_so_far(
    state: DspModel,
    pending: Seq<u32>,
    events: Seq<EventModel>,
    convert: spec_fn(u32) -> i16,
) -> (left: Seq<i16>)
    requires
        state.can_run(events),
        state.converts_each(pending, events, convert),
    ensures
        converted(events) + left == if state.phase is Converting {
            (pending + popped(events)).map_values(convert)
        } else {
            popped(events).map_values(convert)
        },
        !(state.run(events).phase is Converting) ==> left.len() == 0,
    decreases events.len(),
{
    if events.len() == 0 {
        let left = if state.phase is Converting {
            pending.map_values(convert)
        } else {
            Seq::empty()
        };
        assert(converted(events) + left =~= if state.phase is Converting {
            (pending + popped(events)).map_values(convert)
        } else {
            popped(events).map_values(convert)
        });
        left
    } else {
        let (after, action) = state.next(events[0]);
        let rest = events.drop_first();
        let asked = match action {
            ActionModel::Convert(batch) => batch,
            _ => pending,
        };
        let left = converted_so_far(after, asked, rest, convert);
        match events[0] {
            EventModel::Converted(samples) => {
                assert(samples + converted(rest) + left =~= samples + (converted(rest) + left));
                assert((pending + popped(rest)).map_values(convert) =~= pending.map_values(convert)
                    + popped(rest).map_values(convert));
            },
            EventModel::Drained(batch) => {
                if batch.len() == 0 {
                    assert(batch + popped(rest) =~= popped(rest));
                }
            },
            _ => {},
        }
        left
    }
}

/// Where samples are converted one for one, as those of a microphone are, the frames
/// are exactly the samples drained from the ring, converted and cut in order: none is
/// lost, repeated or reordered, and no frame is short.
pub proof fn frames_are_the_popped_samples(
    state: DspModel,
    events: Seq<EventModel>,
    convert: spec_fn(u32) -> i16,
    k: int,
)
    requires
        state.phase is Polling,
        state.buffer.len() == 0,
        state.can_run(events),
        state.converts_each(Seq::empty(), events, convert),
        0 <= k < frames(state.actions(events)).len(),
    ensures
        0 <= k * state.chunk_size,
        k * state.chunk_size + state.chunk_size <= popped(events).len(),
        frames(state.actions(events))[k] == popped(events).map_values(convert).subrange(
            k * state.chunk_size,
            k * state.chunk_size + state.chunk_size,
        ),
{
    let c = state.chunk_size;
    frames_are_slices(state, events, k);
    let left = converted_so_far(state, Seq::empty(), events, convert);
    assert(state.buffer + converted(events) =~= converted(events));
    let all = popped(events).map_values(convert);
    assert(all == converted(events) + left);
    assert(all.len() == popped(events).len());
    assert(all.subrange(k * c, k * c + c) =~= converted(events).subrange(k * c, k * c + c));
}

/// What a run delivers are the payloads that the suppressor's verdicts ask for,
/// each once and in the order of the frames.
pub proof fn deliveries_follow_verdicts(state: DspModel, events: Seq<EventModel>)
    requires
        state.can_run(events),
    ensures
        deliveries(state.actions(events)) == payloads(state.chunk_size, events),
    decreases events.len(),
{
    if events.len() > 0 {
        let after = state.next(events[0]).0;
        deliveries_follow_verdicts(after, events.drop_first());
        first_of_run(state, events);
    }
}

/// The end of speech is reported once for each verdict in which speech had ended,
/// where anybody listens; a report is outstanding only while that frame's payload
/// is being delivered.
pub proof fn speech_ends_are_reported(state: DspModel, events: Seq<EventModel>)
    requires
        state.can_run(events),
    ensures
        state.reports_speech_end ==> notices(state.actions(events)) + state.run(
            events,
        ).owes_notice() == state.owes_notice() + speech_ends(events),
        !state.reports_speech_end ==> notices(state.actions(events)) == 0,
    decreases events.len(),
{
    if events.len() > 0 {
        let after = state.next(events[0]).0;
        speech_ends_are_reported(after, events.drop_first());
        first_of_run(state, events);
    }
}

/// In every run of a microphone's loop, at every rate, the end of speech is reported once
/// for each verdict in which speech had ended, where somebody listens: but for one whose
/// payload is being delivered when the run ends, each was reported by then. Where nobody
/// listens nothing is reported.
pub proof fn microphone_reports_speech_ends(
    native_rate: u32,
    has_listener: bool,
    events: Seq<EventModel>,
)
    requires
        DspModel::microphone(native_rate, has_listener).can_run(events),
    ensures
        ({
            let begun = DspModel::microphone(native_rate, has_listener);
            let outstanding = if begun.run(events).phase == (DspPhase::Delivering {
                speech_ended: true,
            }) {
                1nat
            } else {
                0nat
            };
            notices(begun.actions(events)) == if has_listener {
                speech_ends(events) - outstanding
            } else {
                0
            }
        }),
{
    let begun = DspModel::microphone(native_rate, has_listener);
    speech_ends_are_reported(begun, events);
    settings_never_change(begun, events);
}

/// No run of the loop of system audio reports an end of speech.
pub proof fn system_audio_reports_no_speech_end(may_fall_back: bool, events: Seq<EventModel>)
    requires
        DspModel::system_audio(may_fall_back).can_run(events),
    ensures
        notices(DspModel::system_audio(may_fall_back).actions(events)) == 0,
{
    speech_ends_are_reported(DspModel::system_audio(may_fall_back), events);
}

/// The loop leaves exactly where the stop signal was seen, and nothing follows.
pub proof fn stop_is_final(state: DspModel, event: EventModel)
    requires
        state.accepts(event),
    ensures
        state.next(event).1 is Exit <==> event is StopRequested,
        state.next(event).0.phase is Stopped <==> event is StopRequested,
        event is StopRequested ==> forall|later: EventModel| !#[trigger] state.next(
            event,
        ).0.accepts(later),
{
}

/// How many frames in a row, up to the last, are silent.
pub open spec fn trailing_silence(frames: Seq<Seq<i16>>) -> nat
    decreases frames.len(),
{
    if frames.len() == 0 || !is_silent(frames.last()) {
        0
    } else {
        1 + trailing_silence(frames.drop_last())
    }
}

/// The count of silent frames in a row after a series of frames.
spec fn count_after(count: nat, frames: Seq<Seq<i16>>) -> nat
    decreases frames.len(),
{
    if frames.len() == 0 {
        count
    } else {
        silent_frames_after(count_after(count, frames.drop_last()), frames.last())
    }
}

proof fn count_from_front(count: nat, frame: Seq<i16>, rest: Seq<Seq<i16>>)
    ensures
        count_after(count, seq![frame] + rest) == count_after(
            silent_frames_after(count, frame),
            rest,
        ),
    decreases rest.len(),
{
    let all = seq![frame] + rest;
    if rest.len() == 0 {
        assert(all.drop_last() =~= Seq::<Seq<i16>>::empty());
        assert(all.last() == frame);
        assert(count_after(count, all.drop_last()) == count);
    } else {
        count_from_front(count, frame, rest.drop_last());
        assert(all.drop_last() =~= seq![frame] + rest.drop_last());
        assert(all.last() == rest.last());
    }
}

proof fn count_is_trailing_silence(frames: Seq<Seq<i16>>)
    ensures
        count_after(0, frames) == if trailing_silence(frames) < SILENT_FRAMES_BEFORE_FALLBACK {
            trailing_silence(frames)
        } else {
            SILENT_FRAMES_BEFORE_FALLBACK as nat
        },
    decreases frames.len(),
{
    if frames.len() > 0 {
        count_is_trailing_silence(frames.drop_last());
    }
}

proof fn count_over_run(state: DspModel, events: Seq<EventModel>)
    requires
        state.can_run(events),
    ensures
        state.run(events).silent_frames == count_after(
            state.silent_frames,
            frames(state.actions(events)),
        ),
    decreases events.len(),
{
    if events.len() > 0 {
        let (after, action) = state.next(events[0]);
        let rest = events.drop_first();
        count_over_run(after, rest);
        first_of_run(state, events);
        if let ActionModel::Process(frame) = action {
            count_from_front(state.silent_frames, frame, frames(after.actions(rest)));
        }
    }
}

/// Silence is counted over frames in a row: the count is that of the silent frames up
/// to the last one cut, as far as it is counted at all, and one frame that is not
/// silent begins it anew.
pub proof fn silence_is_counted(state: DspModel, events: Seq<EventModel>)
    requires
        state.can_run(events),
        state.silent_frames == 0,
    ensures
        ({
            let silence = trailing_silence(frames(state.actions(events)));
            state.run(events).silent_frames == if silence < SILENT_FRAMES_BEFORE_FALLBACK {
                silence
            } else {
                SILENT_FRAMES_BEFORE_FALLBACK as nat
            }
        }),
{
    count_over_run(state, events);
    count_is_trailing_silence(frames(state.actions(events)));
}

/// An input is given up only while a frame is dealt with, or is given up already.
spec fn gives_up_in_time(state: DspModel) -> bool {
    state.gives_input_up() ==> {
        ||| state.phase is Processing
        ||| state.phase is Delivering
        ||| state.phase is Notifying
        ||| state.phase is GoneSilent
    }
}

proof fn gives_up_in_time_always(state: DspModel, events: Seq<EventModel>)
    requires
        state.can_run(events),
        gives_up_in_time(state),
    ensures
        gives_up_in_time(state.run(events)),
        state.run(events).may_fall_back == state.may_fall_back,
    decreases events.len(),
{
    if events.len() > 0 {
        gives_up_in_time_always(state.next(events[0]).0, events.drop_first());
    }
}

/// The loop leaves a silent input for another one: after a run in which the frames cut
/// last, as many as it takes, were silent, where there is another input, the loop takes
/// in at most three more events, in which it delivers and reports what the last of them
/// calls for and then falls back. It never falls back otherwise.
pub proof fn silent_input_is_given_up(
    state: DspModel,
    events: Seq<EventModel>,
    event: EventModel,
    more: Seq<EventModel>,
)
    requires
        state.phase is Polling,
        state.silent_frames == 0,
        state.can_run(events),
        state.run(events).accepts(event),
        state.run(events).can_run(more),
    ensures
        ({
            let silence = trailing_silence(frames(state.actions(events)));
            let action = state.run(events).next(event).1;
            if state.may_fall_back && silence >= SILENT_FRAMES_BEFORE_FALLBACK {
                &&& action is Deliver || action is NotifySpeechEnded || action is FallBack
                &&& more.len() <= 3
            } else {
                !(action is FallBack)
            }
        }),
{
    silence_is_counted(state, events);
    gives_up_in_time_always(state, events);
    if state.run(events).gives_input_up() {
        few_events_left(state.run(events), more);
    }
}

/// What a loop can still take in once its input is to be given up.
proof fn few_events_left(state: DspModel, events: Seq<EventModel>)
    requires
        state.gives_input_up(),
        gives_up_in_time(state),
        state.can_run(events),
    ensures
        events.len() <= match state.phase {
            DspPhase::Processing => 3nat,
            DspPhase::Delivering { .. } => 2,
            DspPhase::Notifying => 1,
            _ => 0,
        },
    decreases events.len(),
{
    if events.len() > 0 {
        few_events_left(state.next(events[0]).0, events.drop_first());
    }
}

/// After it fell back the loop takes in nothing more.
pub proof fn fall_back_is_final(state: DspModel, event: EventModel)
    requires
        state.accepts(event),
    ensures
        state.next(event).1 is FallBack <==> state.next(event).0.phase is GoneSilent,
        state.next(event).1 is FallBack ==> forall|later: EventModel| !#[trigger] state.next(
            event,
        ).0.accepts(later),
{
}

/// The loop sleeps only with less than a frame in the buffer, and turns to the stop
/// signal only after that.
pub proof fn sleeps_without_a_whole_frame(state: DspModel, event: EventModel)
    requires
        state.accepts(event),
    ensures
        state.next(event).1 is Sleep ==> state.next(event).0.buffer.len() < state.chunk_size,
        state.next(event).1 is Sleep <==> state.next(event).0.phase is Sleeping,
        state.next(event).1 is Poll <==> state.phase is Sleeping,
{
}

/// Every turn ends: once a batch was converted, the loop is back at the stop signal
/// after no more verdicts, deliveries, reports and sleeps than the bound says, where a
/// frame has any samples at all.
pub proof fn turns_end(state: DspModel, events: Seq<EventModel>)
    requires
        state.can_run(events),
        state.chunk_size > 0,
        forall|k: int|
            0 <= k < events.len() ==> #[trigger] events[k] is Processed || events[k] is Done,
    ensures
        events.len() <= state.steps_left(),
    decreases events.len(),
{
    if events.len() > 0 {
        let after = state.next(events[0]).0;
        let rest = events.drop_first();
        assert forall|k: int| 0 <= k < rest.len() implies #[trigger] rest[k] is Processed
            || rest[k] is Done by {
            assert(rest[k] == events[k + 1]);
        }
        turns_end(after, rest);
        assert(events[0] is Processed || events[0] is Done);
        if rest.len() > 0 {
            assert(rest[0] is Processed || rest[0] is Done);
        }
    }
}

/// The total length of runs of equal length.
proof fn flat_len(parts: Seq<Seq<i16>>, len: nat)
    requires
        forall|k: int| 0 <= k < parts.len() ==> #[trigger] parts[k].len() == len,
    ensures
        parts.flatten().len() == parts.len() * len,
    decreases parts.len(),
{
    if parts.len() > 0 {
        let rest = parts.drop_first();
        assert forall|k: int| 0 <= k < rest.len() implies #[trigger] rest[k].len() == len by {
            assert(rest[k] == parts[k + 1]);
        }
        flat_len(rest, len);
        assert(parts[0].len() == len);
        assert(parts.flatten() == parts.first() + rest.flatten());
        assert(parts.len() * len == len + rest.len() * len) by (nonlinear_arith)
            requires
                parts.len() == rest.len() + 1,
        ;
    } else {
        assert(0 * len == 0) by (nonlinear_arith);
    }
}

/// When a run that began with an empty buffer goes to sleep, every whole frame of
/// what was converted has been judged, and less than a frame is left.
pub proof fn whole_frames_are_judged(state: DspModel, events: Seq<EventModel>)
    requires
        state.can_run(events),
        state.buffer.len() == 0,
        state.chunk_size > 0,
        events.len() > 0,
        state.actions(events).last() is Sleep,
    ensures
        frames(state.actions(events)).len() == converted(events).len() / state.chunk_size,
        state.run(events).buffer.len() == converted(events).len() % state.chunk_size,
{
    samples_are_conserved(state, events);
    let cut = frames(state.actions(events));
    assert forall|k: int| 0 <= k < cut.len() implies #[trigger] cut[k].len()
        == state.chunk_size by {
        frames_have_chunk_size(state, events, k);
    }
    flat_len(cut, state.chunk_size);
    sleeps_at_end(state, events);
    let left = state.run(events).buffer;
    let total = converted(events).len() as int;
    assert((cut.flatten() + left).len() == (state.buffer + converted(events)).len());
    assert(total == cut.len() * state.chunk_size + left.len());
    vstd::arithmetic::div_mod::lemma_fundamental_div_mod_converse(
        total,
        state.chunk_size as int,
        cut.len() as int,
        left.len() as int,
    );
}

/// A run whose last action is to sleep ends with less than a frame in the buffer.
proof fn sleeps_at_end(state: DspModel, events: Seq<EventModel>)
    requires
        state.can_run(events),
        events.len() > 0,
        state.actions(events).last() is Sleep,
    ensures
        state.run(events).buffer.len() < state.chunk_size,
    decreases events.len(),
{
    let after = state.next(events[0]).0;
    let rest = events.drop_first();
    first_of_run(state, events);
    if rest.len() > 0 {
        first_of_run(after, rest);
        assert(state.actions(events).last() == after.actions(rest).last());
        sleeps_at_end(after, rest);
    } else {
        assert(after.actions(rest) == Seq::<ActionModel>::empty());
        assert(after.run(rest) == after);
    }
}

/// Whoever decodes what was delivered for a frame that is to be sent gets the very
/// samples that the suppressor let through; for a silent frame, as many zeros as a
/// frame has samples. No byte is delivered besides those of the samples.
pub proof fn payload_decodes(chunk_size: nat, verdict: VerdictModel)
    ensures
        match verdict {
            VerdictModel::Send(data) => payload(chunk_size, verdict) matches Some(bytes)
                && samples_of_le_bytes(bytes) == data && bytes.len() == 2 * data.len(),
            VerdictModel::SendSilence => payload(chunk_size, verdict) matches Some(bytes)
                && samples_of_le_bytes(bytes) == repeated(0i16, chunk_size) && bytes.len() == 2
                * chunk_size,
            VerdictModel::Suppress => payload(chunk_size, verdict) is None,
        },
{
    match verdict {
        VerdictModel::Send(data) => {
            le_bytes_round_trip(data);
        },
        VerdictModel::SendSilence => {
            le_bytes_round_trip(repeated(0i16, chunk_size));
            crate::pcm::silent_payload_is_encoded_zeros(chunk_size);
        },
        VerdictModel::Suppress => {},
    }
}

/// The samples that a run's verdicts let through, in order: those to be sent, and zeros
/// for a silent frame.
pub open spec fn let_through(chunk_size: nat, events: Seq<EventModel>) -> Seq<i16>
    decreases events.len(),
{
    if events.len() == 0 {
        Seq::empty()
    } else {
        let rest = let_through(chunk_size, events.drop_first());
        match events[0] {
            EventModel::Processed { verdict: VerdictModel::Send(data), .. } => data + rest,
            EventModel::Processed { verdict: VerdictModel::SendSilence, .. } => Seq::new(
                chunk_size,
                |k: int| 0i16,
            ) + rest,
            _ => rest,
        }
    }
}

/// Whoever joins all that a run delivered and decodes it gets the very samples that the
/// suppressor let through, one after the other, with nothing between them and nothing
/// after them.
pub proof fn deliveries_join_to_the_stream(state: DspModel, events: Seq<EventModel>)
    requires
        state.can_run(events),
    ensures
        ({
            let bytes = deliveries(state.actions(events)).flatten();
            &&& bytes.len() == 2 * let_through(state.chunk_size, events).len()
            &&& samples_of_le_bytes(bytes) == let_through(state.chunk_size, events)
        }),
    decreases events.len(),
{
    if events.len() == 0 {
        assert(Seq::<Seq<u8>>::empty().flatten() =~= Seq::<u8>::empty());
        no_samples_no_bytes();
        assert(samples_of_le_bytes(Seq::empty()) =~= Seq::<i16>::empty());
    } else {
        let (after, action) = state.next(events[0]);
        let rest = events.drop_first();
        deliveries_join_to_the_stream(after, rest);
        first_of_run(state, events);
        let tail = deliveries(after.actions(rest));
        let stream = let_through(state.chunk_size, rest);
        if let EventModel::Processed { verdict, .. } = events[0] {
            payload_decodes(state.chunk_size, verdict);
            if let Some(bytes) = payload(state.chunk_size, verdict) {
                assert((seq![bytes] + tail).first() == bytes);
                assert((seq![bytes] + tail).drop_first() =~= tail);
                assert((seq![bytes] + tail).flatten() == bytes + tail.flatten());
                decoded_parts_join(bytes, tail.flatten());
                assert(let_through(state.chunk_size, events) =~= samples_of_le_bytes(bytes)
                    + stream);
            }
        }
    }
}

} // verus!
