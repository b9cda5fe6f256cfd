//! What holds of every capture, whatever its device does.

#[allow(unused_imports)]
use crate::dsp::{SuppressorProfile, SuppressorSetup};
#[allow(unused_imports)]
use crate::error::{CaptureError, ErrorModel};
#[allow(unused_imports)]
use crate::microphone::{
    rate_or_text, start_outcome, MicModel, StartAction, StartActionModel, StopActions, StreamState,
};
#[allow(unused_imports)]
use crate::system::{
    id_chars, SystemModel, WorkerAction, WorkerActionModel, WorkerEvent, WorkerModel, WorkerPhase,
    DEFAULT_SAMPLE_RATE, OUTPUT_SAMPLE_RATE,
};
use vstd::prelude::*;

verus! {

/// A device identifier, and what a backend call or a part of a start gave, are spoken of
/// by every character and number in them.
pub proof fn identifiers_and_outcomes_are_whole(
    device_id: Option<String>,
    told: Result<u32, String>,
    said: Result<StartAction, CaptureError>,
)
    ensures
        match device_id {
            Some(id) => id_chars(device_id) == Some(id@),
            None => id_chars(device_id) is None,
        },
        match told {
            Ok(rate) => rate_or_text(told) == Ok::<u32, Seq<char>>(rate),
            Err(text) => rate_or_text(told) == Err::<u32, Seq<char>>(text@),
        },
        match said {
            Ok(action) => start_outcome(said) == Ok::<StartActionModel, ErrorModel>(action@),
            Err(error) => start_outcome(said) == Err::<StartActionModel, ErrorModel>(error@),
        },
{
}

/// What a background thread and what a start have to do are spoken of by the identifiers,
/// rates and settings in them.
pub proof fn capture_actions_say_everything(work: WorkerAction, start: StartAction)
    ensures
        match work {
            WorkerAction::Open(Some(id)) => work@ == WorkerActionModel::Open(Some(id@)),
            WorkerAction::Open(None) => work@ == WorkerActionModel::Open(None),
            WorkerAction::TakeConsumer => work@ is TakeConsumer,
            WorkerAction::Run { native_rate, suppressor, may_fall_back } => work@
                == (WorkerActionModel::Run { native_rate, suppressor, may_fall_back }),
            WorkerAction::GiveUp => work@ is GiveUp,
        },
        match start {
            StartAction::Open(Some(id)) => start@ == StartActionModel::Open(Some(id@)),
            StartAction::Open(None) => start@ == StartActionModel::Open(None),
            StartAction::Play => start@ is Play,
            StartAction::TakeConsumer => start@ is TakeConsumer,
            StartAction::Run { native_rate, suppressor } => start@ == (StartActionModel::Run {
                native_rate,
                suppressor,
            }),
        },
{
}

/// What can be done with a capture of system audio.
pub enum SystemCall {
    Start,
    Publish(u32),
    Stop,
}

/// A capture of system audio after a series of calls.
pub open spec fn system_after(capture: SystemModel, calls: Seq<SystemCall>) -> SystemModel
    decreases calls.len(),
{
    if calls.len() == 0 {
        capture
    } else {
        let before = system_after(capture, calls.drop_last());
        match calls.last() {
            SystemCall::Start => before.started(),
            SystemCall::Publish(rate) => before.published(rate),
            SystemCall::Stop => before.stopped(),
        }
    }
}

/// A capture of system audio keeps the device that it was created for: after any series
/// of starts, stops and published rates, the job that the next start hands out opens that
/// device, or the default one where none was given.
pub proof fn system_capture_keeps_its_device(
    device_id: Option<Seq<char>>,
    calls: Seq<SystemCall>,
)
    ensures
        ({
            let capture = system_after(SystemModel::created(device_id), calls);
            let job = WorkerModel::created(capture.device_id);
            &&& capture.device_id == device_id
            &&& job.device_id == device_id
            &&& job.accepts(WorkerEvent::Started)
            &&& job.next(WorkerEvent::Started).1 == WorkerActionModel::Open(device_id)
        }),
    decreases calls.len(),
{
    if calls.len() > 0 {
        system_capture_keeps_its_device(device_id, calls.drop_last());
    }
}

/// Each call on a capture of system audio changes what it is for and nothing else, in
/// every state: a start and a stop set the stop signal and whether a thread runs, a
/// published rate sets the rate, and the device stays as it was given.
pub proof fn system_calls_change_little(
    device_id: Option<Seq<char>>,
    capture: SystemModel,
    rate: u32,
)
    ensures
        ({
            let created = SystemModel::created(device_id);
            &&& !created.stop_signal
            &&& !created.running
            &&& created.sample_rate == 48000
            &&& created.device_id == device_id
        }),
        ({
            let started = capture.started();
            &&& !started.stop_signal
            &&& started.running
            &&& started.sample_rate == capture.sample_rate
            &&& started.device_id == capture.device_id
        }),
        ({
            let published = capture.published(rate);
            &&& published.stop_signal == capture.stop_signal
            &&& published.running == capture.running
            &&& published.sample_rate == rate
            &&& published.device_id == capture.device_id
        }),
        ({
            let stopped = capture.stopped();
            &&& stopped.stop_signal
            &&& !stopped.running
            &&& stopped.sample_rate == capture.sample_rate
            &&& stopped.device_id == capture.device_id
        }),
{
}

/// After any series of calls a capture of system audio reports the rate that was published
/// last, by the call just before `since`, or 48 kHz where none was published; starts and
/// stops from `since` on do not matter.
pub proof fn system_capture_reports_the_last_rate(
    device_id: Option<Seq<char>>,
    calls: Seq<SystemCall>,
    since: nat,
)
    requires
        since <= calls.len(),
        forall|k: int| since <= k < calls.len() ==> !(#[trigger] calls[k] is Publish),
        since > 0 ==> calls[since - 1] is Publish,
    ensures
        system_after(SystemModel::created(device_id), calls).sample_rate == if since == 0 {
            48000
        } else {
            calls[since - 1]->0
        },
    decreases calls.len(),
{
    if since < calls.len() {
        let before = calls.drop_last();
        assert forall|k: int| since <= k < before.len() implies !(#[trigger] before[k]
            is Publish) by {
            assert(before[k] == calls[k]);
        }
        system_capture_reports_the_last_rate(device_id, before, since);
        assert(!(calls[calls.len() - 1] is Publish));
    }
}

/// The background thread takes exactly the events that answer what it waits for: word
/// that it runs, how opening went, how asking for samples went, and, where another device
/// is left to try, that the input went silent.
pub proof fn worker_answers_are_accepted(worker: WorkerModel, event: WorkerEvent)
    ensures
        worker.accepts(event) <==> match worker.phase {
            WorkerPhase::Idle => event is Started,
            WorkerPhase::Opening => event is Opened || event is OpenFailed,
            WorkerPhase::FallingBack => event is Opened || event is OpenFailed,
            WorkerPhase::Connecting => event is Connected || event is NoConsumer,
            WorkerPhase::Running => event is WentSilent && !worker.fell_back,
            WorkerPhase::Failed => false,
        },
{
}

/// A step of the background thread keeps the requested device; it turns to the default
/// one exactly where the first opening failed or the input went silent, and remembers
/// that for good. What it waits for is what it asked for.
pub proof fn worker_step_follows_its_event(worker: WorkerModel, event: WorkerEvent)
    requires
        worker.accepts(event),
    ensures
        ({
            let (after, action) = worker.next(event);
            let turns = event is WentSilent || (event is OpenFailed && worker.phase is Opening);
            &&& after.device_id == worker.device_id
            &&& after.fell_back == (worker.fell_back || turns)
            &&& action is Open <==> after.phase is Opening || after.phase is FallingBack
            &&& action is TakeConsumer <==> after.phase is Connecting
            &&& action is Run <==> after.phase is Running
            &&& action is GiveUp <==> after.phase is Failed
            &&& after.phase is FallingBack <==> turns
            &&& event is Started <==> after.phase is Opening
            &&& event is Opened <==> action is TakeConsumer
            &&& event is Connected <==> action is Run
            &&& event is Started ==> action == WorkerActionModel::Open(worker.device_id)
            &&& turns ==> action == WorkerActionModel::Open(None)
            &&& event matches WorkerEvent::Connected { native_rate: told } ==> {
                &&& action matches WorkerActionModel::Run { native_rate, suppressor, may_fall_back }
                &&& native_rate == told
                &&& suppressor.profile is SystemAudio
                &&& suppressor.native_sample_rate == 16000
                &&& may_fall_back == !worker.fell_back
            }
        }),
{
}

/// Until the device has told its rate a capture of system audio reports the default,
/// whether started, stopped or neither; from then on it reports the device's rate.
pub proof fn reported_rate_is_default_until_published(
    device_id: Option<Seq<char>>,
    capture: SystemModel,
    native_rate: u32,
)
    ensures
        SystemModel::created(device_id).sample_rate == DEFAULT_SAMPLE_RATE,
        capture.started().sample_rate == capture.sample_rate,
        capture.stopped().sample_rate == capture.sample_rate,
        capture.published(native_rate).sample_rate == native_rate,
        capture.published(native_rate).stopped().started().sample_rate == native_rate,
{
}

/// A stop undoes a start but for the stop signal, which the next start withdraws
/// again; a second stop changes nothing and finds no thread to wait for.
pub proof fn system_capture_restarts(capture: SystemModel)
    ensures
        capture.stopped().started() == capture.started(),
        capture.started().stopped() == capture.stopped(),
        capture.stopped().stopped() == capture.stopped(),
        !capture.stopped().running,
        capture.stopped().stop_signal,
        !capture.started().stop_signal,
{
}

/// The state of a job after a series of events.
pub open spec fn worker_after(worker: WorkerModel, events: Seq<WorkerEvent>) -> WorkerModel
    decreases events.len(),
{
    if events.len() == 0 {
        worker
    } else {
        worker_after(worker, events.drop_last()).next(events.last()).0
    }
}

/// Every event of the series answers what the job waited for.
pub open spec fn worker_can_run(worker: WorkerModel, events: Seq<WorkerEvent>) -> bool
    decreases events.len(),
{
    events.len() > 0 ==> {
        &&& worker_can_run(worker, events.drop_last())
        &&& worker_after(worker, events.drop_last()).accepts(events.last())
    }
}

/// The action that the last event of a series calls for.
pub open spec fn worker_action(
    worker: WorkerModel,
    events: Seq<WorkerEvent>,
) -> WorkerActionModel {
    worker_after(worker, events.drop_last()).next(events.last()).1
}

/// The background thread opens at most two devices: the requested one first, and the
/// default one only after that could not be opened or went silent. It gives up exactly
/// where the default one could not be opened either or where an open stream had no
/// samples to give. It enters the loop exactly where a stream gave them, at the rate
/// that the stream told, with the suppressor set up for the rate after conversion, and
/// only on the requested device may the loop leave for its silence. No job takes more
/// than six events.
pub proof fn worker_tries_requested_then_default(
    device_id: Option<Seq<char>>,
    events: Seq<WorkerEvent>,
)
    requires
        events.len() > 0,
        worker_can_run(WorkerModel::created(device_id), events),
    ensures
        events.len() <= 6,
        ({
            let action = worker_action(WorkerModel::created(device_id), events);
            &&& events.len() == 1 ==> action == WorkerActionModel::Open(device_id)
            &&& events.len() > 1 && action is Open ==> {
                &&& action == WorkerActionModel::Open(None)
                &&& first_open_failed(events) || went_silent(events)
            }
            &&& action is GiveUp <==> events.last() is NoConsumer || (
            events.last() is OpenFailed && events.len() > 2)
            &&& action is Run <==> events.last() is Connected
            &&& events.last() matches WorkerEvent::Connected { native_rate } ==> action
                == (WorkerActionModel::Run {
                native_rate,
                suppressor: SuppressorSetup {
                    profile: SuppressorProfile::SystemAudio,
                    native_sample_rate: OUTPUT_SAMPLE_RATE,
                },
                may_fall_back: events.len() == 3,
            })
        }),
{
    let job = WorkerModel::created(device_id);
    worker_history(job, events.drop_last());
    worker_history(job, events);
}

/// The events of a job whose requested device could not be opened.
pub open spec fn first_open_failed(events: Seq<WorkerEvent>) -> bool {
    events == seq![WorkerEvent::Started, WorkerEvent::OpenFailed]
}

/// The events of a job whose requested device ran and went silent.
pub open spec fn went_silent(events: Seq<WorkerEvent>) -> bool {
    &&& events.len() == 4
    &&& events[0] is Started
    &&& events[1] is Opened
    &&& events[2] is Connected
    &&& events[3] is WentSilent
}

/// A job that runs on the requested device and is told of its silence turns to the
/// default one, once: running on that one, it takes no such news again.
pub proof fn silent_device_is_left_once(worker: WorkerModel, native_rate: u32)
    requires
        worker.phase is Running,
    ensures
        worker.accepts(WorkerEvent::WentSilent) <==> !worker.fell_back,
        !worker.fell_back ==> {
            let (turned, action) = worker.next(WorkerEvent::WentSilent);
            let (opened, asked) = turned.next(WorkerEvent::Opened);
            let (running, entered) = opened.next(WorkerEvent::Connected { native_rate });
            &&& action == WorkerActionModel::Open(None)
            &&& turned.accepts(WorkerEvent::Opened)
            &&& asked is TakeConsumer
            &&& opened.accepts(WorkerEvent::Connected { native_rate })
            &&& entered == (WorkerActionModel::Run {
                native_rate,
                suppressor: SuppressorSetup {
                    profile: SuppressorProfile::SystemAudio,
                    native_sample_rate: OUTPUT_SAMPLE_RATE,
                },
                may_fall_back: false,
            })
            &&& running.phase is Running
            &&& !running.accepts(WorkerEvent::WentSilent)
        },
{
}

/// What a job's state says of the events that led to it.
proof fn worker_history(job: WorkerModel, events: Seq<WorkerEvent>)
    requires
        job.phase is Idle,
        !job.fell_back,
        worker_can_run(job, events),
    ensures
        worker_after(job, events).device_id == job.device_id,
        ({
            let fell_back = worker_after(job, events).fell_back;
            match worker_after(job, events).phase {
                WorkerPhase::Idle => events.len() == 0 && !fell_back,
                WorkerPhase::Opening => events == seq![WorkerEvent::Started] && !fell_back,
                WorkerPhase::FallingBack => fell_back && (first_open_failed(events)
                    || went_silent(events)),
                WorkerPhase::Connecting => {
                    &&& events.last() is Opened
                    &&& if fell_back {
                        events.len() == 3 || events.len() == 5
                    } else {
                        events == seq![WorkerEvent::Started, WorkerEvent::Opened]
                    }
                },
                WorkerPhase::Running => {
                    &&& events.last() is Connected
                    &&& if fell_back {
                        events.len() == 4 || events.len() == 6
                    } else {
                        events.len() == 3 && events[0] is Started && events[1] is Opened
                    }
                },
                WorkerPhase::Failed => 3 <= events.len() <= 6 && (events.last() is NoConsumer
                    || events.last() is OpenFailed),
            }
        }),
    decreases events.len(),
{
    if events.len() > 0 {
        let before = events.drop_last();
        worker_history(job, before);
        assert(events =~= before.push(events.last()));
        if events.last() is Started {
            assert(events =~= seq![WorkerEvent::Started]);
        }
        if worker_after(job, before).phase is Opening {
            if events.last() is OpenFailed {
                assert(events =~= seq![WorkerEvent::Started, WorkerEvent::OpenFailed]);
            } else {
                assert(events =~= seq![WorkerEvent::Started, WorkerEvent::Opened]);
            }
        }
    }
}

/// What can be done with a capture from a microphone.
pub enum MicCall {
    Start,
    Reopened(Result<u32, Seq<char>>),
    Played(Result<u32, Seq<char>>),
    Connected(bool),
    Stop,
}

/// A capture from a microphone after a series of calls.
pub open spec fn microphone_after(capture: MicModel, calls: Seq<MicCall>) -> MicModel
    decreases calls.len(),
{
    if calls.len() == 0 {
        capture
    } else {
        let before = microphone_after(capture, calls.drop_last());
        match calls.last() {
            MicCall::Start => before.started().0,
            MicCall::Reopened(opened) => before.reopened(opened).0,
            MicCall::Played(played) => before.played(played).0,
            MicCall::Connected(available) => before.connected(available).0,
            MicCall::Stop => before.stopped(),
        }
    }
}

/// A capture from a microphone keeps the device that it was created for: after any series
/// of calls, whatever came of them, the next start plays a stream of that device that was
/// not used, or opens that device.
pub proof fn microphone_keeps_its_device(
    device_id: Option<Seq<char>>,
    native_rate: u32,
    calls: Seq<MicCall>,
)
    ensures
        ({
            let capture = microphone_after(MicModel::created(device_id, native_rate), calls);
            let action = capture.started().1;
            &&& capture.device_id == device_id
            &&& capture.input is Fresh ==> action is Play
            &&& !(capture.input is Fresh) ==> action == StartActionModel::Open(device_id)
        }),
    decreases calls.len(),
{
    if calls.len() > 0 {
        microphone_keeps_its_device(device_id, native_rate, calls.drop_last());
    }
}

/// Creating a capture from a microphone, starting and stopping it change what they are
/// for and nothing else, in every state.
pub proof fn microphone_calls_change_little(
    device_id: Option<Seq<char>>,
    native_rate: u32,
    capture: MicModel,
)
    ensures
        ({
            let created = MicModel::created(device_id, native_rate);
            &&& !created.stop_signal
            &&& !created.running
            &&& created.sample_rate == native_rate
            &&& created.device_id == device_id
            &&& created.input is Fresh
        }),
        ({
            let (started, action) = capture.started();
            &&& !started.stop_signal
            &&& started.running == capture.running
            &&& started.sample_rate == capture.sample_rate
            &&& started.device_id == capture.device_id
            &&& started.input == capture.input
            &&& capture.input is Fresh ==> action is Play
            &&& !(capture.input is Fresh) ==> action == StartActionModel::Open(capture.device_id)
        }),
        ({
            let stopped = capture.stopped();
            &&& stopped.stop_signal
            &&& !stopped.running
            &&& stopped.sample_rate == capture.sample_rate
            &&& stopped.device_id == capture.device_id
            &&& stopped.input is Absent
            &&& capture.stop_actions().join == capture.running
            &&& capture.stop_actions().pause <==> !(capture.input is Absent)
        }),
{
}

/// The parts of a start, in every state: a device that was opened gives a fresh stream at
/// its rate; a stream that plays gives its rate; a stream that hands out its samples is
/// used up and sets the thread going at the rate told last; one that has none is used up
/// too. Each failure is told with the backend's own text and changes nothing else.
pub proof fn microphone_parts_follow_the_backend(
    capture: MicModel,
    rate: u32,
    text: Seq<char>,
    available: bool,
)
    ensures
        ({
            let (after, said) = capture.reopened(Ok(rate));
            &&& said == Ok::<_, ErrorModel>(StartActionModel::Play)
            &&& after.sample_rate == rate
            &&& after.input is Fresh
            &&& after.running == capture.running
            &&& after.stop_signal == capture.stop_signal
            &&& after.device_id == capture.device_id
        }),
        capture.reopened(Err(text)) == (
            capture,
            Err::<StartActionModel, _>(ErrorModel::ReopenFailed(text)),
        ),
        capture.input is Absent ==> {
            let missing = Err::<StartActionModel, _>(ErrorModel::InputMissing);
            &&& capture.played(Ok(rate)) == (capture, missing)
            &&& capture.played(Err(text)) == (capture, missing)
            &&& capture.connected(available) == (capture, missing)
        },
        !(capture.input is Absent) ==> {
            let (playing, asked) = capture.played(Ok(rate));
            let (running, outcome) = capture.connected(available);
            &&& asked == Ok::<_, ErrorModel>(StartActionModel::TakeConsumer)
            &&& playing.sample_rate == rate
            &&& playing.input == capture.input
            &&& playing.running == capture.running
            &&& playing.stop_signal == capture.stop_signal
            &&& playing.device_id == capture.device_id
            &&& capture.played(Err(text)) == (
                capture,
                Err::<StartActionModel, _>(ErrorModel::PlayFailed(text)),
            )
            &&& running.input is Consumed
            &&& running.running == (capture.running || available)
            &&& running.sample_rate == capture.sample_rate
            &&& running.stop_signal == capture.stop_signal
            &&& running.device_id == capture.device_id
            &&& !available ==> outcome == Err::<StartActionModel, _>(ErrorModel::NoConsumer)
            &&& available ==> outcome == Ok::<_, ErrorModel>(
                StartActionModel::Run {
                    native_rate: capture.sample_rate,
                    suppressor: SuppressorSetup {
                        profile: SuppressorProfile::Microphone,
                        native_sample_rate: capture.sample_rate,
                    },
                },
            )
        },
{
}

/// After a stop the next start opens the device anew, and the capture holds no
/// thread and no stream of the time before.
pub proof fn microphone_restart_reopens(capture: MicModel)
    ensures
        capture.stopped().started().1 == StartActionModel::Open(capture.device_id),
        capture.stopped().input is Absent,
        !capture.stopped().running,
        capture.stopped().stop_signal,
{
}

/// No two starts use the same stream: once a start has asked a stream for its
/// samples, with whatever outcome, the next start opens the device anew.
pub proof fn stream_is_used_once(capture: MicModel, available: bool)
    ensures
        capture.connected(available).0.started().1 == StartActionModel::Open(capture.device_id),
{
}

/// The first start plays the stream that was opened on creation.
pub proof fn first_start_plays(device_id: Option<Seq<char>>, native_rate: u32)
    ensures
        MicModel::created(device_id, native_rate).started().1 is Play,
{
}

/// A start in which nothing fails: the thread runs at the rate that the playing
/// stream told, which is also the rate reported, and the stop signal is withdrawn.
pub proof fn successful_start_runs(capture: MicModel, opened_rate: u32, rate: u32)
    ensures
        ({
            let (begun, action) = capture.started();
            let ready = if action is Open {
                begun.reopened(Ok(opened_rate)).0
            } else {
                begun
            };
            let (playing, asked) = ready.played(Ok(rate));
            let (running, outcome) = playing.connected(true);
            &&& asked == Ok::<_, ErrorModel>(StartActionModel::TakeConsumer)
            &&& outcome == Ok::<_, ErrorModel>(
                StartActionModel::Run {
                    native_rate: rate,
                    suppressor: SuppressorSetup {
                        profile: SuppressorProfile::Microphone,
                        native_sample_rate: rate,
                    },
                },
            )
            &&& running.running
            &&& !running.stop_signal
            &&& running.sample_rate == rate
            &&& running.device_id == capture.device_id
        }),
{
}

/// A start that fails starts no thread and ends none, and leaves a stream that was
/// not asked for its samples to the next start. A stream is never missing where one
/// is to be played or asked.
pub proof fn failed_start_changes_little(
    capture: MicModel,
    opened: Result<u32, Seq<char>>,
    played: Result<u32, Seq<char>>,
    available: bool,
)
    ensures
        ({
            let (begun, action) = capture.started();
            let (ready, go_on) = if action is Open {
                begun.reopened(opened)
            } else {
                (begun, Ok(StartActionModel::Play))
            };
            let (playing, asked) = ready.played(played);
            let (ended, outcome) = playing.connected(available);
            &&& go_on is Err ==> ready == begun && begun.running == capture.running
            &&& go_on is Ok && asked is Err ==> playing == ready && ready.running
                == capture.running && playing.started().1 is Play
            &&& go_on is Ok && asked is Ok && outcome is Err ==> ended.running == capture.running
            &&& go_on is Ok ==> asked != Err::<StartActionModel, _>(ErrorModel::InputMissing)
            &&& go_on is Ok && asked is Ok ==> outcome != Err::<StartActionModel, _>(
                ErrorModel::InputMissing,
            )
        }),
{
}

/// A second stop changes nothing and has nothing to do.
pub proof fn microphone_stops_once(capture: MicModel)
    ensures
        capture.stopped().stopped() == capture.stopped(),
        capture.stopped().stop_actions() == (StopActions { join: false, pause: false }),
{
}

} // verus!
