use murmur::asr_client::AsrClient;

#[test]
fn new_client_keeps_its_choices() {
    let client = AsrClient::new("whisper".to_string(), false);
    assert_eq!(client.model(), "whisper");
    assert!(!client.polish());
}

#[test]
fn default_client_uses_sensevoice_with_polish() {
    let client = AsrClient::default();
    assert_eq!(client.model(), "sensevoice");
    assert!(client.polish());
}

#[test]
fn setters_change_one_choice_each() {
    let mut client = AsrClient::default();
    client.set_model("paraformer".to_string());
    assert_eq!(client.model(), "paraformer");
    assert!(client.polish());
    client.set_polish(false);
    assert_eq!(client.model(), "paraformer");
    assert!(!client.polish());
}

#[test]
fn request_without_choices_keeps_the_client() {
    let mut client = AsrClient::new("whisper".to_string(), false);
    let snapshot = client.apply_request(None, None);
    assert_eq!(client.model(), "whisper");
    assert!(!client.polish());
    assert_eq!(snapshot.model(), "whisper");
    assert!(!snapshot.polish());
}

#[test]
fn request_choices_are_kept_and_copied() {
    let mut client = AsrClient::default();
    let snapshot = client.apply_request(Some("whisper".to_string()), Some(false));
    assert_eq!(client.model(), "whisper");
    assert!(!client.polish());
    assert_eq!(snapshot.model(), "whisper");
    assert!(!snapshot.polish());
    let snapshot = client.apply_request(None, Some(true));
    assert_eq!(snapshot.model(), "whisper");
    assert!(snapshot.polish());
}

#[test]
fn transcription_settings_follow_the_client() {
    let client = AsrClient::new("whisper".to_string(), false);
    let settings = client.transcription_settings();
    assert_eq!(settings.model, "whisper");
    assert!(!settings.polish);
}
