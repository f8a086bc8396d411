use voiceflow::context::{classify_context, classify_lowercased, context_from_window, WindowInfo};
use voiceflow::hotkeys::{
    custom_keybinding_schema, keybinding_list_update, keybinding_properties, pipe_event,
    shortcut_event, tray_action, TrayAction,
};
use voiceflow::wav::{encode_wav, recording_to_wav};

fn window(title: &str, process: &str) -> WindowInfo {
    WindowInfo { title: title.to_string(), process_name: process.to_string() }
}

#[test]
fn contexts_by_process_and_title() {
    assert_eq!(
        classify_context(&window("general", "Slack")),
        "casual chat/messaging — use informal, conversational tone"
    );
    assert_eq!(
        classify_context(&window("Inbox - Mail", "firefox")),
        "email — use professional, polished tone with proper salutations"
    );
    assert_eq!(
        classify_context(&window("main.rs", "Code")),
        "code editor — use technical, precise language; preserve code terminology"
    );
    assert_eq!(
        classify_context(&window("Report", "libreoffice-writer")),
        "document editor — use clear, well-structured prose"
    );
    assert_eq!(
        classify_context(&window("~", "Alacritty")),
        "terminal — use concise, technical language"
    );
    assert_eq!(
        classify_context(&window("Calculator", "gnome-calculator")),
        "general text input — use clear, neutral tone"
    );
}

#[test]
fn first_matching_rule_wins() {
    assert_eq!(
        classify_lowercased("discord", "compose"),
        "casual chat/messaging — use informal, conversational tone"
    );
    assert_eq!(
        classify_lowercased("vscode", "email draft"),
        "email — use professional, polished tone with proper salutations"
    );
    assert_eq!(
        classify_lowercased("kitty", ""),
        "terminal — use concise, technical language"
    );
}

#[test]
fn context_of_missing_window_is_an_error() {
    assert_eq!(
        context_from_window(None).err().unwrap(),
        "Could not detect active window"
    );
    let c = context_from_window(Some(window("Chat", "telegram-desktop"))).ok().unwrap();
    assert_eq!(c.window_title, "Chat");
    assert_eq!(c.process_name, "telegram-desktop");
    assert_eq!(c.context_description, "casual chat/messaging — use informal, conversational tone");
}

const ENTRY: &str = "'/org/gnome/settings-daemon/plugins/media-keys/custom-keybindings/voiceflow-toggle/'";

#[test]
fn keybinding_list_gets_the_entry_once() {
    assert_eq!(keybinding_list_update("@as []\n"), Some(format!("[{ENTRY}]")));
    assert_eq!(keybinding_list_update(""), Some(format!("[{ENTRY}]")));
    assert_eq!(keybinding_list_update("  \n"), Some(format!("[{ENTRY}]")));
    assert_eq!(keybinding_list_update("[]"), Some(format!("[{ENTRY}]")));
    let other = "['/org/gnome/settings-daemon/plugins/media-keys/custom-keybindings/custom0/']\n";
    let updated = keybinding_list_update(other).unwrap();
    assert_eq!(
        updated,
        format!("['/org/gnome/settings-daemon/plugins/media-keys/custom-keybindings/custom0/', {ENTRY}]")
    );
    assert_eq!(keybinding_list_update(&updated), None);
    assert_eq!(keybinding_list_update(&format!("[{ENTRY}]")), None);
}

#[test]
fn keybinding_settings() {
    assert_eq!(
        custom_keybinding_schema(),
        "org.gnome.settings-daemon.plugins.media-keys.custom-keybinding:/org/gnome/settings-daemon/plugins/media-keys/custom-keybindings/voiceflow-toggle/"
    );
    assert_eq!(
        keybinding_properties(),
        vec![
            ("name".to_string(), "VoiceFlow Toggle".to_string()),
            ("command".to_string(), "sh -c 'echo toggle > /tmp/voiceflow-hotkey'".to_string()),
            ("binding".to_string(), "<Control><Alt>s".to_string()),
        ]
    );
}

#[test]
fn pipe_lines_raise_events() {
    assert_eq!(pipe_event("toggle\n"), Some(("hotkey-toggle".to_string(), "dictation".to_string())));
    assert_eq!(pipe_event("  dictation "), Some(("hotkey-pressed".to_string(), "dictation".to_string())));
    assert_eq!(pipe_event("command"), Some(("hotkey-pressed".to_string(), "command".to_string())));
    assert_eq!(pipe_event("toggled"), None);
    assert_eq!(pipe_event(""), None);
}

#[test]
fn shortcuts_and_tray() {
    assert_eq!(shortcut_event(true, false, true), Some(("hotkey-pressed".to_string(), "dictation".to_string())));
    assert_eq!(shortcut_event(false, true, false), Some(("hotkey-released".to_string(), "command".to_string())));
    assert_eq!(shortcut_event(false, false, true), None);
    assert_eq!(tray_action("show"), TrayAction::ShowSettings);
    assert_eq!(tray_action("quit"), TrayAction::Quit);
    assert_eq!(tray_action("other"), TrayAction::Nothing);
}

#[test]
fn wav_bytes_are_exact() {
    let bytes = encode_wav(&[0, 1, -1, 32767, -32768], 16000);
    let mut expected: Vec<u8> = Vec::new();
    expected.extend_from_slice(b"RIFF");
    expected.extend_from_slice(&[46, 0, 0, 0]);
    expected.extend_from_slice(b"WAVEfmt ");
    expected.extend_from_slice(&[16, 0, 0, 0, 1, 0, 1, 0]);
    expected.extend_from_slice(&[0x80, 0x3E, 0, 0, 0x00, 0x7D, 0, 0, 2, 0, 16, 0]);
    expected.extend_from_slice(b"data");
    expected.extend_from_slice(&[10, 0, 0, 0]);
    expected.extend_from_slice(&[0, 0, 1, 0, 0xFF, 0xFF, 0xFF, 0x7F, 0x00, 0x80]);
    assert_eq!(bytes, expected);
    assert_eq!(bytes.len(), 44 + 2 * 5);
}

#[test]
fn empty_recording_is_an_error() {
    assert_eq!(recording_to_wav(&[], 16000), Err("No audio recorded".to_string()));
    assert_eq!(recording_to_wav(&[], 0), Err("No audio recorded".to_string()));
    let wav = recording_to_wav(&[7, -7], 44100).unwrap();
    assert_eq!(wav.len(), 48);
    assert_eq!(&wav[24..28], &[0x44, 0xAC, 0, 0]);
}
