use murmur::transcription::{
    finish_transcription, ColiExit, ColiReply, TranscribeError, TranscriptionSettings,
    COLI_TIMEOUT_SECS,
};

fn exit_ok(stdout: &str) -> ColiExit {
    ColiExit { success: true, status: "exit status: 0".to_string(), stderr: String::new(), stdout: stdout.to_string() }
}

fn reply(text: &str, clean: Option<&str>, lang: Option<&str>) -> ColiReply {
    ColiReply::Transcribed {
        text: text.to_string(),
        text_clean: clean.map(|s| s.to_string()),
        lang: lang.map(|s| s.to_string()),
    }
}

#[test]
fn settings_default_to_sensevoice_with_polish() {
    let settings = TranscriptionSettings::resolve(None, None);
    assert_eq!(settings.model, "sensevoice");
    assert!(settings.polish);
    let settings = TranscriptionSettings::resolve(Some("whisper".to_string()), Some(false));
    assert_eq!(settings.model, "whisper");
    assert!(!settings.polish);
}

#[test]
fn coli_arguments_request_json_output() {
    let settings = TranscriptionSettings::resolve(None, None);
    assert_eq!(
        settings.coli_arguments("/tmp/a.wav"),
        vec!["asr", "-j", "--model", "sensevoice", "/tmp/a.wav"]
    );
}

#[test]
fn polished_text_is_preferred_when_asked_for() {
    let result = finish_transcription(exit_ok("{}"), reply("um hello", Some("Hello."), Some("en")), true).unwrap();
    assert_eq!(result.text, "Hello.");
    assert_eq!(result.lang.as_deref(), Some("en"));
}

#[test]
fn raw_text_is_used_without_polish_or_clean_text() {
    let result = finish_transcription(exit_ok("{}"), reply("um hello", Some("Hello."), None), false).unwrap();
    assert_eq!(result.text, "um hello");
    assert_eq!(result.lang, None);
    let result = finish_transcription(exit_ok("{}"), reply("um hello", None, Some("zh")), true).unwrap();
    assert_eq!(result.text, "um hello");
}

#[test]
fn failed_exit_reports_trimmed_stderr() {
    let exit = ColiExit {
        success: false,
        status: "exit status: 2".to_string(),
        stderr: "  model not found \n".to_string(),
        stdout: String::new(),
    };
    let error = finish_transcription(exit, reply("ignored", None, None), true).unwrap_err();
    assert_eq!(error.message(), "coli asr failed: model not found");
}

#[test]
fn failed_exit_without_stderr_reports_status() {
    let exit = ColiExit {
        success: false,
        status: "exit status: 2".to_string(),
        stderr: " \n".to_string(),
        stdout: String::new(),
    };
    let error = finish_transcription(exit, ColiReply::Unrecognized, true).unwrap_err();
    assert!(matches!(error, TranscribeError::ExitFailure { .. }));
    assert_eq!(error.message(), "coli asr failed with status exit status: 2");
}

#[test]
fn coli_error_is_handed_on() {
    let error = finish_transcription(
        exit_ok("{\"error\":\"bad audio\"}"),
        ColiReply::Failed { error: "bad audio".to_string() },
        true,
    )
    .unwrap_err();
    assert_eq!(error.message(), "bad audio");
}

#[test]
fn unrecognized_output_is_reported_trimmed() {
    let error = finish_transcription(exit_ok("  garbage\n"), ColiReply::Unrecognized, true).unwrap_err();
    assert_eq!(error.message(), "Failed to parse coli response: garbage");
}

#[test]
fn failure_messages() {
    assert_eq!(
        TranscribeError::AudioNotFound { path: "/tmp/voice-input-core-missing.wav".to_string() }.message(),
        "Audio file not found: /tmp/voice-input-core-missing.wav"
    );
    assert!(TranscribeError::AudioNotFound { path: "/x.wav".to_string() }
        .message()
        .contains("Audio file not found"));
    assert_eq!(TranscribeError::InvalidAudioPath.message(), "Invalid audio path");
    assert_eq!(
        TranscribeError::ColiNotFound.message(),
        "Failed to locate the coli executable. Bundle it into the app or install @marswave/coli."
    );
    assert_eq!(
        TranscribeError::LaunchFailed { executable: "/usr/bin/coli".to_string(), reason: "denied".to_string() }
            .message(),
        "Failed to execute coli via /usr/bin/coli: denied"
    );
    assert_eq!(
        TranscribeError::WaitFailed { reason: "interrupted".to_string() }.message(),
        "Failed while waiting for coli: interrupted"
    );
    assert_eq!(TranscribeError::TimedOut.message(), "coli asr timed out after 120 seconds");
    assert_eq!(COLI_TIMEOUT_SECS, 120);
    assert_eq!(
        TranscribeError::CollectFailed { reason: "broken pipe".to_string() }.message(),
        "Failed to collect coli output: broken pipe"
    );
    assert_eq!(TranscribeError::Reported { message: "oops".to_string() }.message(), "oops");
    assert_eq!(
        TranscribeError::Unparsed { stdout: "x".to_string() }.message(),
        "Failed to parse coli response: x"
    );
}
