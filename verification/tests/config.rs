use voiceflow::openai::{
    after_send, api_error, bearer, chat_messages, cleanup_request, cleanup_system_prompt,
    command_user_message, decimal_text, first_choice, join_texts, parse_error, status_text,
    transcription_fields, transcription_request, voice_command_request, Api, SendVerdict,
};
use voiceflow::settings::{
    default_command_hotkey, default_dictation_hotkey, default_toggle_hotkey, fill_default_hotkeys,
    initial_config, settings_from_config, AppConfig, SettingsData,
};

fn config_with_key(key: &str, dictionary: &[&str]) -> AppConfig {
    let mut c = initial_config();
    c.openai_api_key = key.to_string();
    c.personal_dictionary = dictionary.iter().map(|s| s.to_string()).collect();
    c
}

#[test]
fn default_hotkeys() {
    assert_eq!(default_dictation_hotkey(), "Ctrl+Alt+D");
    assert_eq!(default_command_hotkey(), "Ctrl+Alt+C");
    assert_eq!(default_toggle_hotkey(), "Ctrl+Alt+S");
    let c = initial_config();
    assert_eq!(c.dictation_hotkey, "Ctrl+Alt+D");
    assert_eq!(c.command_hotkey, "Ctrl+Alt+C");
    assert_eq!(c.toggle_hotkey, "Ctrl+Alt+S");
    assert!(c.openai_api_key.is_empty() && c.selected_mic.is_none() && c.personal_dictionary.is_empty());
    let d = AppConfig::default();
    assert!(d.dictation_hotkey.is_empty() && d.command_hotkey.is_empty() && d.toggle_hotkey.is_empty());
}

#[test]
fn loaded_config_gets_missing_hotkeys() {
    let mut c = AppConfig::default();
    c.command_hotkey = "Super+K".to_string();
    c.openai_api_key = "sk".to_string();
    let filled = fill_default_hotkeys(c);
    assert_eq!(filled.dictation_hotkey, "Ctrl+Alt+D");
    assert_eq!(filled.command_hotkey, "Super+K");
    assert_eq!(filled.toggle_hotkey, "Ctrl+Alt+S");
    assert_eq!(filled.openai_api_key, "sk");
    let again = fill_default_hotkeys(filled);
    assert_eq!(again.command_hotkey, "Super+K");
}

#[test]
fn settings_read_back_what_was_written() {
    let mut config = initial_config();
    let written = SettingsData {
        openai_api_key: "key".to_string(),
        dictation_hotkey: "A".to_string(),
        command_hotkey: "B".to_string(),
        toggle_hotkey: "C".to_string(),
        selected_mic: Some("mic".to_string()),
        personal_dictionary: vec!["Verus".to_string(), "Tauri".to_string()],
    };
    config.apply_settings(written);
    let read = settings_from_config(&config);
    assert_eq!(read.openai_api_key, "key");
    assert_eq!(read.dictation_hotkey, "A");
    assert_eq!(read.command_hotkey, "B");
    assert_eq!(read.toggle_hotkey, "C");
    assert_eq!(read.selected_mic.as_deref(), Some("mic"));
    assert_eq!(read.personal_dictionary, vec!["Verus".to_string(), "Tauri".to_string()]);
}

#[test]
fn cleanup_needs_a_key() {
    let err = cleanup_request(&config_with_key("", &[]), "um hello", "email").err().unwrap();
    assert_eq!(err, "OpenAI API key not configured");
    let p = cleanup_request(&config_with_key("sk-1", &[]), "um hello", "email").ok().unwrap();
    assert_eq!(p.api_key, "sk-1");
    assert_eq!(p.user_message, "um hello");
    assert!(p.system_prompt.ends_with("tone for the context: email\n- Return ONLY the cleaned text, nothing else"));
    assert_eq!(p.system_prompt, cleanup_system_prompt("email"));
    let messages = chat_messages(&p);
    assert_eq!(messages[0].0, "system");
    assert_eq!(messages[1], ("user".to_string(), "um hello".to_string()));
}

#[test]
fn cleanup_prompt_text() {
    assert_eq!(
        cleanup_system_prompt("chat"),
        "You are a dictation assistant. Clean up the following raw speech transcript:\n- Fix grammar and punctuation\n- Remove filler words (um, uh, like, you know)\n- Maintain the speaker's intent and meaning\n- Do NOT add information that wasn't spoken\n- Match the appropriate tone for the context: chat\n- Return ONLY the cleaned text, nothing else"
    );
}

#[test]
fn voice_command_message() {
    assert_eq!(command_user_message("abc", "shout"), "Selected text:\nabc\n\nCommand: shout");
    let p = voice_command_request(&config_with_key("k", &[]), "abc", "shout").ok().unwrap();
    assert_eq!(p.user_message, "Selected text:\nabc\n\nCommand: shout");
    assert!(p.system_prompt.starts_with("You are a text transformation assistant."));
    assert_eq!(
        voice_command_request(&config_with_key("", &[]), "a", "b").err().unwrap(),
        "OpenAI API key not configured"
    );
}

#[test]
fn transcription_prompt_joins_dictionary() {
    let t = transcription_request(&config_with_key("k", &["Verus", "Tauri", "Z3"])).ok().unwrap();
    assert_eq!(t.prompt.as_deref(), Some("Verus, Tauri, Z3"));
    let t = transcription_request(&config_with_key("k", &[])).ok().unwrap();
    assert!(t.prompt.is_none());
    assert_eq!(
        transcription_request(&config_with_key("", &["x"])).err().unwrap(),
        "OpenAI API key not configured. Please set it in Settings."
    );
    assert_eq!(join_texts(&vec!["one".to_string()], ", "), "one");
    assert_eq!(join_texts(&Vec::new(), ", "), "");
}

#[test]
fn transcription_form() {
    let with = transcription_fields(Some("Verus"));
    assert_eq!(
        with,
        vec![
            ("model".to_string(), "whisper-1".to_string()),
            ("response_format".to_string(), "json".to_string()),
            ("prompt".to_string(), "Verus".to_string()),
        ]
    );
    assert_eq!(transcription_fields(None).len(), 2);
    assert_eq!(bearer("sk-9"), "Bearer sk-9");
}

#[test]
fn replies_and_errors() {
    assert!(matches!(after_send(Api::Gpt, Ok(200)), SendVerdict::ReadPayload));
    assert!(matches!(after_send(Api::Whisper, Ok(299)), SendVerdict::ReadPayload));
    assert!(matches!(after_send(Api::Gpt, Ok(404)), SendVerdict::ReadErrorBody(404)));
    match after_send(Api::Whisper, Err("timeout".to_string())) {
        SendVerdict::Failed(m) => assert_eq!(m, "Whisper API request failed: timeout"),
        _ => panic!("expected a failure"),
    }
    assert_eq!(api_error(Api::Gpt, 401, "bad key"), "GPT API error (401 Unauthorized): bad key");
    assert_eq!(api_error(Api::Whisper, 599, ""), "Whisper API error (599 <unknown status code>): ");
    assert_eq!(status_text(404), "404 Not Found");
    assert_eq!(parse_error(Api::Gpt, "eof"), "Failed to parse GPT response: eof");
    assert_eq!(first_choice(vec!["a".to_string(), "b".to_string()]), Ok("a".to_string()));
    assert_eq!(first_choice(Vec::new()), Err("No response from GPT".to_string()));
    assert_eq!(decimal_text(0), "0");
    assert_eq!(decimal_text(65535), "65535");
    assert_eq!(decimal_text(500), "500");
}
