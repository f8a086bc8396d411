# voiceflow

The logic of a desktop dictation tool (record speech, transcribe it with
OpenAI Whisper, clean it up with a chat model, type it into the focused
window), as a Verus-verified library, with the desktop shell around it in
`app/`.

`src/` holds, each with its contract:

- `text`: whitespace, trimming, prefixes, line splitting and joining over
  `Seq<char>`, with executable counterparts on character vectors;
- `devices`: the `pactl list sources` listing, the ALSA fallback, the choice
  of input device (with the PipeWire/PulseAudio bridge fallback on Linux) and
  of the mono capture rate;
- `wav`: the mono 16-bit PCM WAVE file of a recording, written by `hound`,
  whose bytes the contracts state exactly;
- `context`: the writing context suggested by the focused window;
- `settings`: the stored configuration, the settings form, default hotkeys;
- `openai`: the prompts and requests sent to the OpenAI API and how replies
  and errors are turned into results;
- `session` and `inject`: typing text into the focused window and reading the
  selected text, as state machines whose effects (running `wl-copy`, `xclip`,
  `xdotool`, using the clipboard, simulating keys, waiting) the host performs;
- `hotkeys`: the GNOME keybinding, the hotkey pipe, global shortcuts, the tray
  menu.

`app/` is the Tauri application: commands, audio capture with `cpal`, HTTP
with `reqwest`, the clipboard and keyboard with `arboard` and `enigo`, and
the loop that performs the effects the `inject` state machines ask for.
