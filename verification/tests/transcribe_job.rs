use murmur::transcribe_job::{Progress, TranscriptionEvent, TranscriptionJob, TranscriptionStep};
use murmur::transcription::{ColiExit, ColiReply, TranscribeError, Transcript};

fn next(progress: Progress) -> (TranscriptionJob, TranscriptionStep) {
    match progress {
        Progress::Next(job, step) => (job, step),
        Progress::Finished(_) => panic!("the transcription ended early"),
    }
}

fn finished(progress: Progress) -> Result<Transcript, TranscribeError> {
    match progress {
        Progress::Finished(result) => result,
        Progress::Next(..) => panic!("the transcription did not end"),
    }
}

fn audio_ok() -> TranscriptionEvent {
    TranscriptionEvent::AudioChecked {
        exists: true,
        shown_path: "/tmp/a.wav".to_string(),
        unicode_path: Some("/tmp/a.wav".to_string()),
    }
}

fn located() -> TranscriptionEvent {
    TranscriptionEvent::ColiLocated { executable: Some("/usr/bin/coli".to_string()) }
}

fn launched_job(model: Option<String>, polish: Option<bool>) -> TranscriptionJob {
    let (job, step) = TranscriptionJob::new(model, polish);
    assert!(matches!(step, TranscriptionStep::CheckAudio));
    let (job, step) = next(job.advance(audio_ok()));
    assert!(matches!(step, TranscriptionStep::LocateColi));
    let (job, step) = next(job.advance(located()));
    assert!(matches!(step, TranscriptionStep::Launch { .. }));
    let (job, step) = next(job.advance(TranscriptionEvent::Launched { failure: None }));
    assert!(matches!(step, TranscriptionStep::Wait { timeout_secs: 120 }));
    job
}

#[test]
fn launch_uses_located_coli_and_checked_audio() {
    let (job, _) = TranscriptionJob::new(None, None);
    let (job, _) = next(job.advance(audio_ok()));
    let (_, step) = next(job.advance(located()));
    match step {
        TranscriptionStep::Launch { program, args } => {
            assert_eq!(program, "/usr/bin/coli");
            assert_eq!(args, vec!["asr", "-j", "--model", "sensevoice", "/tmp/a.wav"]);
        }
        _ => panic!("expected a launch"),
    }
}

#[test]
fn successful_run_yields_polished_text() {
    let job = launched_job(None, None);
    let (job, step) = next(job.advance(TranscriptionEvent::Waited { outcome: Ok(true) }));
    assert!(matches!(step, TranscriptionStep::Collect));
    let exit = ColiExit {
        success: true,
        status: "exit status: 0".to_string(),
        stderr: String::new(),
        stdout: "{}".to_string(),
    };
    let reply = ColiReply::Transcribed {
        text: "hello".to_string(),
        text_clean: Some("Hello.".to_string()),
        lang: Some("en".to_string()),
    };
    let result = finished(job.advance(TranscriptionEvent::Collected { outcome: Ok((exit, reply)) })).unwrap();
    assert_eq!(result.text, "Hello.");
    assert_eq!(result.lang.as_deref(), Some("en"));
}

#[test]
fn raw_text_without_polish() {
    let job = launched_job(Some("whisper".to_string()), Some(false));
    let (job, _) = next(job.advance(TranscriptionEvent::Waited { outcome: Ok(true) }));
    let exit = ColiExit { success: true, status: String::new(), stderr: String::new(), stdout: String::new() };
    let reply = ColiReply::Transcribed { text: "hello".to_string(), text_clean: Some("Hello.".to_string()), lang: None };
    let result = finished(job.advance(TranscriptionEvent::Collected { outcome: Ok((exit, reply)) })).unwrap();
    assert_eq!(result.text, "hello");
}

#[test]
fn missing_audio_file_is_reported_first() {
    let (job, _) = TranscriptionJob::new(None, None);
    let error = finished(job.advance(TranscriptionEvent::AudioChecked {
        exists: false,
        shown_path: "/tmp/voice-input-core-missing.wav".to_string(),
        unicode_path: Some("/tmp/voice-input-core-missing.wav".to_string()),
    }))
    .unwrap_err();
    assert!(error.message().contains("Audio file not found"));
    assert_eq!(error.message(), "Audio file not found: /tmp/voice-input-core-missing.wav");
}

#[test]
fn non_unicode_audio_path_is_rejected() {
    let (job, _) = TranscriptionJob::new(None, None);
    let error = finished(job.advance(TranscriptionEvent::AudioChecked {
        exists: true,
        shown_path: "/tmp/\u{fffd}.wav".to_string(),
        unicode_path: None,
    }))
    .unwrap_err();
    assert_eq!(error.message(), "Invalid audio path");
}

#[test]
fn missing_coli_is_reported() {
    let (job, _) = TranscriptionJob::new(None, None);
    let (job, _) = next(job.advance(audio_ok()));
    let error = finished(job.advance(TranscriptionEvent::ColiLocated { executable: None })).unwrap_err();
    assert!(matches!(error, TranscribeError::ColiNotFound));
}

#[test]
fn launch_failure_names_the_executable() {
    let (job, _) = TranscriptionJob::new(None, None);
    let (job, _) = next(job.advance(audio_ok()));
    let (job, _) = next(job.advance(located()));
    let error = finished(job.advance(TranscriptionEvent::Launched { failure: Some("permission denied".to_string()) }))
        .unwrap_err();
    assert_eq!(error.message(), "Failed to execute coli via /usr/bin/coli: permission denied");
}

#[test]
fn timeout_stops_coli_before_failing() {
    let job = launched_job(None, None);
    let (job, step) = next(job.advance(TranscriptionEvent::Waited { outcome: Ok(false) }));
    assert!(matches!(step, TranscriptionStep::StopColi));
    let error = finished(job.advance(TranscriptionEvent::Stopped)).unwrap_err();
    assert_eq!(error.message(), "coli asr timed out after 120 seconds");
}

#[test]
fn wait_and_collect_failures_are_reported() {
    let job = launched_job(None, None);
    let error = finished(job.advance(TranscriptionEvent::Waited { outcome: Err("interrupted".to_string()) })).unwrap_err();
    assert_eq!(error.message(), "Failed while waiting for coli: interrupted");

    let job = launched_job(None, None);
    let (job, _) = next(job.advance(TranscriptionEvent::Waited { outcome: Ok(true) }));
    let error = finished(job.advance(TranscriptionEvent::Collected { outcome: Err("broken pipe".to_string()) })).unwrap_err();
    assert_eq!(error.message(), "Failed to collect coli output: broken pipe");
}

#[test]
fn failed_exit_is_reported_from_collected_output() {
    let job = launched_job(None, None);
    let (job, _) = next(job.advance(TranscriptionEvent::Waited { outcome: Ok(true) }));
    let exit = ColiExit {
        success: false,
        status: "exit status: 1".to_string(),
        stderr: "boom\n".to_string(),
        stdout: String::new(),
    };
    let error = finished(job.advance(TranscriptionEvent::Collected { outcome: Ok((exit, ColiReply::Unrecognized)) }))
        .unwrap_err();
    assert_eq!(error.message(), "coli asr failed: boom");
}

#[test]
fn unexpected_event_repeats_the_step() {
    let (job, _) = TranscriptionJob::new(None, None);
    let (job, step) = next(job.advance(TranscriptionEvent::Stopped));
    assert!(matches!(step, TranscriptionStep::CheckAudio));
    let (_, step) = next(job.advance(audio_ok()));
    assert!(matches!(step, TranscriptionStep::LocateColi));
}
