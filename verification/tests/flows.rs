use voiceflow::inject::{get_selected_text, inject_text};
use voiceflow::session::{command_line, Effect, Keystroke, Outcome, Platform, Step};

/// Drives a text injection with the outcomes given, returning the effects
/// asked for and the result.
fn run_inject(text: &str, platform: Platform, outcomes: Vec<Outcome>) -> (Vec<String>, Result<(), String>) {
    let mut flow = inject_text(text, platform);
    let mut effects = Vec::new();
    let mut next = Outcome::Start;
    let mut rest = outcomes.into_iter();
    loop {
        match flow.step(next) {
            Step::Perform(e) => {
                effects.push(format!("{:?}", e));
                next = rest.next().unwrap_or(Outcome::Done);
            }
            Step::Finish(r) => {
                assert!(flow.is_finished());
                return (effects, r);
            }
        }
    }
}

fn run_select(platform: Platform, outcomes: Vec<Outcome>) -> (Vec<String>, Result<String, String>) {
    let mut flow = get_selected_text(platform);
    let mut effects = Vec::new();
    let mut next = Outcome::Start;
    let mut rest = outcomes.into_iter();
    loop {
        match flow.step(next) {
            Step::Perform(e) => {
                effects.push(format!("{:?}", e));
                next = rest.next().unwrap_or(Outcome::Done);
            }
            Step::Finish(r) => return (effects, r),
        }
    }
}

#[test]
fn linux_injection_via_wl_copy_and_xdotool() {
    let (effects, result) = run_inject(
        "hello",
        Platform::Linux,
        vec![Outcome::Exited(true), Outcome::Done, Outcome::Exited(true)],
    );
    assert_eq!(effects, vec!["WlCopy(\"hello\")", "Sleep(100)", "Xdotool(\"ctrl+v\")"]);
    assert_eq!(result, Ok(()));
}

#[test]
fn linux_injection_falls_back_to_xclip_clipboard_and_keyboard() {
    let (effects, result) = run_inject(
        "hi",
        Platform::Linux,
        vec![
            Outcome::Exited(false),
            Outcome::Exited(false),
            Outcome::Done,
            Outcome::Done,
            Outcome::Exited(false),
            Outcome::Done,
            Outcome::Done,
            Outcome::Done,
            Outcome::Done,
        ],
    );
    assert_eq!(
        effects,
        vec![
            "WlCopy(\"hi\")",
            "XclipCopy(\"hi\")",
            "WriteClipboard(\"hi\")",
            "Sleep(100)",
            "Xdotool(\"ctrl+v\")",
            "StartKeyboard",
            "Key(PressControl)",
            "Key(Click('v'))",
            "Key(ReleaseControl)",
        ]
    );
    assert_eq!(result, Ok(()));
}

#[test]
fn linux_injection_reports_clipboard_errors() {
    let (_, result) = run_inject(
        "x",
        Platform::Linux,
        vec![Outcome::Exited(false), Outcome::Exited(false), Outcome::OpenFailed("no display".into())],
    );
    assert_eq!(result, Err("Clipboard error: no display".to_string()));
    let (_, result) = run_inject(
        "x",
        Platform::Linux,
        vec![Outcome::Exited(false), Outcome::Exited(false), Outcome::Failed("denied".into())],
    );
    assert_eq!(result, Err("Clipboard write error: denied".to_string()));
}

#[test]
fn keyboard_errors_name_the_failing_step() {
    let prefix = vec![Outcome::Exited(true), Outcome::Done, Outcome::Exited(false)];
    let cases = vec![
        (0, "Failed to create Enigo instance: e"),
        (1, "Failed to press Ctrl: e"),
        (2, "Failed to press V: e"),
        (3, "Failed to release Ctrl: e"),
    ];
    for (failing, message) in cases {
        let mut outcomes: Vec<Outcome> = prefix.iter().map(|o| match o {
            Outcome::Exited(b) => Outcome::Exited(*b),
            _ => Outcome::Done,
        }).collect();
        for _ in 0..failing {
            outcomes.push(Outcome::Done);
        }
        outcomes.push(Outcome::Failed("e".into()));
        let (_, result) = run_inject("x", Platform::Linux, outcomes);
        assert_eq!(result, Err(message.to_string()));
    }
}

#[test]
fn other_platform_injection_restores_clipboard() {
    let (effects, result) = run_inject(
        "new",
        Platform::Other,
        vec![
            Outcome::Text("old".into()),
            Outcome::Done,
            Outcome::Done,
            Outcome::Done,
            Outcome::Done,
            Outcome::Done,
            Outcome::Done,
            Outcome::Done,
            Outcome::Done,
        ],
    );
    assert_eq!(
        effects,
        vec![
            "ReadClipboard",
            "WriteClipboard(\"new\")",
            "Sleep(50)",
            "StartKeyboard",
            "Key(PressControl)",
            "Key(Click('v'))",
            "Key(ReleaseControl)",
            "Sleep(100)",
            "WriteClipboard(\"old\")",
        ]
    );
    assert_eq!(result, Ok(()));
}

#[test]
fn other_platform_injection_with_empty_clipboard_restores_nothing() {
    let (effects, result) = run_inject("new", Platform::Other, vec![Outcome::Failed("empty".into())]);
    assert_eq!(effects.last().unwrap(), "Sleep(100)");
    assert!(!effects.iter().any(|e| e == "WriteClipboard(\"\")"));
    assert_eq!(result, Ok(()));
}

#[test]
fn linux_selection_restores_clipboard_and_returns_selection() {
    let (effects, result) = run_select(
        Platform::Linux,
        vec![
            Outcome::Captured(true, Some("saved".into())),
            Outcome::Exited(true),
            Outcome::Done,
            Outcome::Exited(true),
            Outcome::Done,
            Outcome::Captured(true, Some("picked".into())),
            Outcome::Exited(true),
        ],
    );
    assert_eq!(
        effects,
        vec![
            "WlPaste",
            "WlCopy(\"\")",
            "Sleep(50)",
            "Xdotool(\"ctrl+c\")",
            "Sleep(150)",
            "WlPaste",
            "WlCopy(\"saved\")",
        ]
    );
    assert_eq!(result, Ok("picked".to_string()));
}

#[test]
fn nothing_selected_is_an_error() {
    let (effects, result) = run_select(
        Platform::Linux,
        vec![
            Outcome::Captured(false, None),
            Outcome::Exited(true),
            Outcome::Done,
            Outcome::Exited(true),
            Outcome::Done,
            Outcome::Captured(true, Some(String::new())),
        ],
    );
    assert_eq!(effects.len(), 6);
    assert_eq!(result, Err("No text selected".to_string()));
}

#[test]
fn other_platform_selection_uses_keyboard() {
    let (effects, result) = run_select(
        Platform::Other,
        vec![
            Outcome::Text("before".into()),
            Outcome::Done,
            Outcome::Done,
            Outcome::Done,
            Outcome::Done,
            Outcome::Done,
            Outcome::Done,
            Outcome::Done,
            Outcome::Text("chosen".into()),
            Outcome::Done,
        ],
    );
    assert_eq!(
        effects,
        vec![
            "ReadClipboard",
            "WriteClipboard(\"\")",
            "Sleep(50)",
            "StartKeyboard",
            "Key(PressControl)",
            "Key(Click('c'))",
            "Key(ReleaseControl)",
            "Sleep(100)",
            "ReadClipboard",
            "WriteClipboard(\"before\")",
        ]
    );
    assert_eq!(result, Ok("chosen".to_string()));
}

#[test]
fn selection_copy_failure_is_reported() {
    let (_, result) = run_select(
        Platform::Other,
        vec![Outcome::Text("before".into()), Outcome::Done, Outcome::Done, Outcome::Done, Outcome::Done, Outcome::Failed("stuck".into())],
    );
    assert_eq!(result, Err("Failed to press C: stuck".to_string()));
    let (_, result) = run_select(Platform::Other, vec![Outcome::Text("b".into()), Outcome::OpenFailed("x".into())]);
    assert_eq!(result, Err("Clipboard error: x".to_string()));
}

#[test]
fn command_lines_of_effects() {
    let (p, a) = command_line(&Effect::WlCopy("t".into())).unwrap();
    assert_eq!((p.as_str(), a), ("wl-copy", vec!["t".to_string()]));
    let (p, a) = command_line(&Effect::XclipCopy("t".into())).unwrap();
    assert_eq!((p.as_str(), a), ("xclip", vec!["-selection".to_string(), "clipboard".to_string()]));
    let (p, a) = command_line(&Effect::WlPaste).unwrap();
    assert_eq!((p.as_str(), a), ("wl-paste", vec!["--no-newline".to_string()]));
    let (p, a) = command_line(&Effect::Xdotool("ctrl+c".into())).unwrap();
    assert_eq!(
        (p.as_str(), a),
        ("xdotool", vec!["key".to_string(), "--clearmodifiers".to_string(), "ctrl+c".to_string()])
    );
    assert!(command_line(&Effect::Key(Keystroke::PressControl)).is_none());
    assert!(command_line(&Effect::Sleep(5)).is_none());
}
