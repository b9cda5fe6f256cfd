use natively_audio::devices::{get_input_devices, get_output_devices, AudioDeviceInfo};
use natively_audio::dsp::{SuppressorProfile, SuppressorSetup};
use natively_audio::error::CaptureError;
use natively_audio::microphone::{MicrophoneCapture, StartAction, StopActions};
use natively_audio::system::{
    SystemAudioCapture, SystemWorker, WorkerAction, WorkerEvent, WorkerPhase,
};

fn system_job(device: Option<&str>) -> (SystemAudioCapture, SystemWorker) {
    let mut capture = SystemAudioCapture::new(device.map(String::from)).ok().unwrap();
    let worker = capture.start().ok().unwrap();
    (capture, worker)
}

fn microphone() -> MicrophoneCapture {
    MicrophoneCapture::new(Some(String::from("mic")), Ok(44100)).ok().unwrap()
}

fn run_at(rate: u32) -> StartAction {
    StartAction::Run {
        native_rate: rate,
        suppressor: SuppressorSetup {
            profile: SuppressorProfile::Microphone,
            native_sample_rate: rate,
        },
    }
}

#[test]
fn system_rate_is_default_until_published() {
    let (mut capture, _worker) = system_job(None);
    assert_eq!(capture.get_sample_rate(), 48000);
    capture.publish_sample_rate(44100);
    assert_eq!(capture.get_sample_rate(), 44100);
    assert!(capture.stop());
    assert_eq!(capture.get_sample_rate(), 44100);
}

#[test]
fn system_capture_stops_and_restarts() {
    let mut capture = SystemAudioCapture::new(None).ok().unwrap();
    assert!(!capture.stop_requested());
    assert!(!capture.stop());
    assert!(capture.stop_requested());
    assert!(capture.start().is_ok());
    assert!(!capture.stop_requested());
    assert!(capture.stop());
    assert!(!capture.stop());
}

#[test]
fn worker_opens_the_requested_device() {
    let (_capture, mut worker) = system_job(Some("out"));
    let open = worker.step(WorkerEvent::Started);
    assert_eq!(open, WorkerAction::Open(Some(String::from("out"))));
    assert_eq!(worker.step(WorkerEvent::Opened), WorkerAction::TakeConsumer);
    assert_eq!(
        worker.step(WorkerEvent::Connected { native_rate: 44100 }),
        WorkerAction::Run {
            native_rate: 44100,
            suppressor: SuppressorSetup {
                profile: SuppressorProfile::SystemAudio,
                native_sample_rate: 16000,
            },
            may_fall_back: true,
        }
    );
    assert_eq!(worker.phase(), WorkerPhase::Running);
}

#[test]
fn worker_leaves_a_silent_device_once() {
    let (_capture, mut worker) = system_job(Some("out"));
    worker.step(WorkerEvent::Started);
    worker.step(WorkerEvent::Opened);
    assert!(!worker.accepts(WorkerEvent::WentSilent));
    worker.step(WorkerEvent::Connected { native_rate: 44100 });
    assert!(worker.accepts(WorkerEvent::WentSilent));
    assert_eq!(worker.step(WorkerEvent::WentSilent), WorkerAction::Open(None));
    assert_eq!(worker.phase(), WorkerPhase::FallingBack);
    assert_eq!(worker.step(WorkerEvent::Opened), WorkerAction::TakeConsumer);
    assert_eq!(
        worker.step(WorkerEvent::Connected { native_rate: 48000 }),
        WorkerAction::Run {
            native_rate: 48000,
            suppressor: SuppressorSetup {
                profile: SuppressorProfile::SystemAudio,
                native_sample_rate: 16000,
            },
            may_fall_back: false,
        }
    );
    assert!(!worker.accepts(WorkerEvent::WentSilent));
}

#[test]
fn worker_gives_up_where_the_other_device_fails() {
    let (_capture, mut worker) = system_job(None);
    worker.step(WorkerEvent::Started);
    worker.step(WorkerEvent::Opened);
    worker.step(WorkerEvent::Connected { native_rate: 44100 });
    worker.step(WorkerEvent::WentSilent);
    assert_eq!(worker.step(WorkerEvent::OpenFailed), WorkerAction::GiveUp);
}

#[test]
fn worker_falls_back_once() {
    let (_capture, mut worker) = system_job(Some("out"));
    worker.step(WorkerEvent::Started);
    assert_eq!(worker.step(WorkerEvent::OpenFailed), WorkerAction::Open(None));
    assert!(worker.accepts(WorkerEvent::Opened));
    assert_eq!(worker.step(WorkerEvent::OpenFailed), WorkerAction::GiveUp);
    assert_eq!(worker.phase(), WorkerPhase::Failed);
    assert!(!worker.accepts(WorkerEvent::OpenFailed));
}

#[test]
fn worker_gives_up_without_samples() {
    let (_capture, mut worker) = system_job(None);
    assert!(!worker.accepts(WorkerEvent::Opened));
    assert_eq!(worker.step(WorkerEvent::Started), WorkerAction::Open(None));
    assert_eq!(worker.step(WorkerEvent::OpenFailed), WorkerAction::Open(None));
    assert_eq!(worker.step(WorkerEvent::Opened), WorkerAction::TakeConsumer);
    assert_eq!(worker.step(WorkerEvent::NoConsumer), WorkerAction::GiveUp);
}

#[test]
fn microphone_is_opened_on_creation() {
    assert_eq!(microphone().get_sample_rate(), 44100);
    let error = MicrophoneCapture::new(None, Err(String::from("no device"))).err().unwrap();
    assert_eq!(error.reason(), "Failed: no device");
}

#[test]
fn microphone_starts_on_the_first_stream() {
    let mut capture = microphone();
    assert_eq!(capture.start(), StartAction::Play);
    assert_eq!(capture.played(Ok(48000)), Ok(StartAction::TakeConsumer));
    assert_eq!(capture.get_sample_rate(), 48000);
    assert_eq!(capture.connected(true), Ok(run_at(48000)));
    assert!(!capture.stop_requested());
    assert_eq!(capture.stop(), StopActions { join: true, pause: true });
    assert!(capture.stop_requested());
    assert_eq!(capture.stop(), StopActions { join: false, pause: false });
}

#[test]
fn microphone_restart_opens_the_device_anew() {
    let mut capture = microphone();
    assert_eq!(capture.stop(), StopActions { join: false, pause: true });
    assert_eq!(capture.start(), StartAction::Open(Some(String::from("mic"))));
    assert!(!capture.stop_requested());
    assert_eq!(capture.reopened(Ok(16000)), Ok(StartAction::Play));
    assert_eq!(capture.get_sample_rate(), 16000);
    assert_eq!(capture.played(Ok(16000)), Ok(StartAction::TakeConsumer));
    assert_eq!(capture.connected(true), Ok(run_at(16000)));
}

#[test]
fn a_used_stream_is_not_used_again() {
    let mut capture = microphone();
    capture.start();
    assert!(capture.played(Ok(44100)).is_ok());
    assert!(capture.connected(true).is_ok());
    assert_eq!(capture.start(), StartAction::Open(Some(String::from("mic"))));
    assert_eq!(capture.stop(), StopActions { join: true, pause: true });
}

#[test]
fn failed_starts_say_why() {
    let mut capture = microphone();
    capture.start();
    let error = capture.played(Err(String::from("busy"))).err().unwrap();
    assert_eq!(error, CaptureError::PlayFailed(String::from("busy")));
    assert_eq!(error.reason(), "busy");
    assert_eq!(capture.start(), StartAction::Play);
    assert!(capture.played(Ok(44100)).is_ok());
    let error = capture.connected(false).err().unwrap();
    assert_eq!(error.reason(), "Failed to get consumer");
    assert_eq!(capture.start(), StartAction::Open(Some(String::from("mic"))));
    let error = capture.reopened(Err(String::from("gone"))).err().unwrap();
    assert_eq!(error.reason(), "[MicrophoneCapture] Failed to recreate stream: gone");
    assert_eq!(capture.stop(), StopActions { join: false, pause: true });
    assert_eq!(capture.played(Ok(1)).err().unwrap().reason(), "Input missing");
    assert_eq!(capture.connected(true), Err(CaptureError::InputMissing));
    assert_eq!(capture.get_sample_rate(), 44100);
}

#[test]
fn devices_are_listed_in_order() {
    let listed = || {
        Ok(vec![
            (String::from("a"), String::from("Alpha")),
            (String::from("b"), String::from("Beta")),
        ])
    };
    let expected = vec![
        AudioDeviceInfo { id: String::from("a"), name: String::from("Alpha") },
        AudioDeviceInfo { id: String::from("b"), name: String::from("Beta") },
    ];
    assert_eq!(get_input_devices(listed()), expected);
    assert_eq!(get_output_devices(listed()), expected);
}

#[test]
fn a_failed_listing_is_empty() {
    assert!(get_input_devices(Err(String::from("x"))).is_empty());
    assert!(get_output_devices(Err(String::from("x"))).is_empty());
    assert!(get_input_devices(Ok(vec![])).is_empty());
}
