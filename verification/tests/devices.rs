use voiceflow::devices::{
    alsa_devices, default_mono_rate, list_devices, parse_pactl_sources, pick_mono_rate,
    select_input_device, AudioDevice, ConfigRange, DeviceListing, DevicePick,
};
use voiceflow::session::Platform;

fn pairs(devices: &[AudioDevice]) -> Vec<(String, String)> {
    devices.iter().map(|d| (d.name.clone(), d.label.clone())).collect()
}

const LISTING: &str = "Source #52\n\tState: SUSPENDED\n\tName: alsa_output.pci-0000_00_1f.3.analog-stereo.monitor\n\tDescription: Monitor of Built-in Audio Analog Stereo\n\tDriver: PipeWire\n\nSource #53\n\tState: RUNNING\n\tName: alsa_input.usb-0c76_USB_PnP_Audio_Device-00.mono-fallback\n\tDescription: Microphone - USB PnP Audio Device\n\tDriver: PipeWire\n\tProperties:\n\t\tdevice.description = \"USB PnP Audio Device\"\n\nSource #54\n\tName:   alsa_input.pci-0000_00_1f.3.analog-stereo  \n\tDescription:  Built-in Audio Analog Stereo \n";

#[test]
fn pactl_listing_skips_monitors_and_trims() {
    let devices = parse_pactl_sources(LISTING);
    assert_eq!(
        pairs(&devices),
        vec![
            (
                "alsa_input.usb-0c76_USB_PnP_Audio_Device-00.mono-fallback".to_string(),
                "Microphone - USB PnP Audio Device".to_string()
            ),
            (
                "alsa_input.pci-0000_00_1f.3.analog-stereo".to_string(),
                "Built-in Audio Analog Stereo".to_string()
            ),
        ]
    );
}

#[test]
fn pactl_block_without_description_is_dropped() {
    let text = "Source #1\n\tName: only-a-name\nSource #2\n\tName: mic\n\tDescription: Mic\n";
    assert_eq!(pairs(&parse_pactl_sources(text)), vec![("mic".to_string(), "Mic".to_string())]);
}

#[test]
fn pactl_later_field_wins_and_crlf_is_trimmed() {
    let text = "Source #1\r\n  Name: first\r\n  Name: second\r\n  Description: Desc\r\n";
    assert_eq!(pairs(&parse_pactl_sources(text)), vec![("second".to_string(), "Desc".to_string())]);
}

#[test]
fn pactl_empty_output_lists_nothing() {
    assert!(parse_pactl_sources("").is_empty());
    assert!(parse_pactl_sources("garbage\nmore garbage").is_empty());
}

#[test]
fn pactl_fields_before_any_header_form_a_block() {
    let text = "Name: early\nDescription: Early\nSource #9\n";
    assert_eq!(pairs(&parse_pactl_sources(text)), vec![("early".to_string(), "Early".to_string())]);
}

#[test]
fn device_listing_prefers_pulse_sources() {
    let pulse = vec![AudioDevice { name: "a".to_string(), label: "A".to_string() }];
    match list_devices(pulse) {
        DeviceListing::Ready(d) => assert_eq!(pairs(&d), vec![("a".to_string(), "A".to_string())]),
        DeviceListing::NeedAlsa => panic!("expected the pulse sources"),
    }
    assert!(matches!(list_devices(Vec::new()), DeviceListing::NeedAlsa));
}

#[test]
fn alsa_names_become_devices() {
    let names = vec![Some("default".to_string()), None, Some("hw:1".to_string())];
    let devices = alsa_devices(Ok(names)).unwrap();
    assert_eq!(
        pairs(&devices),
        vec![("default".to_string(), "default".to_string()), ("hw:1".to_string(), "hw:1".to_string())]
    );
    assert_eq!(
        alsa_devices(Err("no backend".to_string())).err().unwrap(),
        "Failed to enumerate input devices: no backend"
    );
}

fn names(list: &[&str]) -> Vec<Option<String>> {
    list.iter().map(|s| Some(s.to_string())).collect()
}

#[test]
fn no_request_takes_the_default_device() {
    let plan = select_input_device(Some(names(&["x"])), None, Platform::Linux);
    assert!(plan.route.is_none());
    match plan.pick {
        DevicePick::Default(e) => assert_eq!(e, "No default input device available"),
        DevicePick::Listed(_) => panic!("expected the default device"),
    }
}

#[test]
fn exact_name_is_taken_first() {
    let plan = select_input_device(Some(names(&["pulse", "hw:2", "hw:2"])), Some("hw:2"), Platform::Linux);
    assert!(plan.route.is_none());
    assert!(matches!(plan.pick, DevicePick::Listed(1)));
}

#[test]
fn linux_routes_unknown_source_through_bridge() {
    let plan = select_input_device(
        Some(names(&["sysdefault", "default", "pulse"])),
        Some("alsa_input.usb-mic"),
        Platform::Linux,
    );
    assert_eq!(plan.route.as_deref(), Some("alsa_input.usb-mic"));
    assert!(matches!(plan.pick, DevicePick::Listed(2)));
}

#[test]
fn unknown_device_falls_back_to_default() {
    let plan = select_input_device(Some(names(&["hw:0"])), Some("mic"), Platform::Other);
    assert!(plan.route.is_none());
    match plan.pick {
        DevicePick::Default(e) => assert_eq!(e, "Device 'mic' not found and no default available"),
        DevicePick::Listed(_) => panic!("expected the default device"),
    }
    let plan = select_input_device(None, Some("mic"), Platform::Linux);
    assert_eq!(plan.route.as_deref(), Some("mic"));
    assert!(matches!(plan.pick, DevicePick::Default(_)));
}

#[test]
fn mono_rate_prefers_16k_float_mono() {
    let ranges = vec![
        ConfigRange { channels: 2, is_f32: true, min_rate: 8000, max_rate: 48000 },
        ConfigRange { channels: 1, is_f32: false, min_rate: 8000, max_rate: 48000 },
        ConfigRange { channels: 1, is_f32: true, min_rate: 44100, max_rate: 48000 },
    ];
    assert_eq!(pick_mono_rate(Ok(ranges.clone())), Ok(None));
    let mut with_match = ranges;
    with_match.push(ConfigRange { channels: 1, is_f32: true, min_rate: 16000, max_rate: 16000 });
    assert_eq!(pick_mono_rate(Ok(with_match)), Ok(Some(16000)));
    assert_eq!(
        pick_mono_rate(Err("gone".to_string())),
        Err("Failed to get supported configs: gone".to_string())
    );
    assert_eq!(default_mono_rate(Ok(44100)), Ok(44100));
    assert_eq!(
        default_mono_rate(Err("busy".to_string())),
        Err("Failed to get default config: busy".to_string())
    );
}
