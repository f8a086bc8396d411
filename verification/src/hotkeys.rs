//! Hotkeys: the GNOME custom keybinding that toggles dictation, the commands
//! that arrive through its named pipe, the global shortcuts, and the tray
//! menu.
use vstd::prelude::*;
use crate::text::{chars_of, contains, has_infix, has_prefix, is_ws, lemma_trim_of_unpadded, trim, trim_range};

verus! {

pub open spec fn pipe_path() -> Seq<char> {
    "/tmp/voiceflow-hotkey"@
}

pub open spec fn gnome_schema() -> Seq<char> {
    "org.gnome.settings-daemon.plugins.media-keys"@
}

pub open spec fn keybinding_path() -> Seq<char> {
    "/org/gnome/settings-daemon/plugins/media-keys/custom-keybindings/voiceflow-toggle/"@
}

/// The named pipe that the keybinding writes to.
pub fn hotkey_pipe() -> (r: String)
    ensures
        r@ == pipe_path(),
{
    String::from_str("/tmp/voiceflow-hotkey")
}

/// The schema that holds the list of custom keybindings.
pub fn media_keys_schema() -> (r: String)
    ensures
        r@ == gnome_schema(),
{
    String::from_str("org.gnome.settings-daemon.plugins.media-keys")
}

/// The schema of this application's keybinding.
pub open spec fn keybinding_schema() -> Seq<char> {
    gnome_schema() + ".custom-keybinding:"@ + keybinding_path()
}

/// The schema of this application's keybinding.
pub fn custom_keybinding_schema() -> (r: String)
    ensures
        r@ == keybinding_schema(),
{
    let mut s = media_keys_schema();
    s.append(".custom-keybinding:");
    s.append("/org/gnome/settings-daemon/plugins/media-keys/custom-keybindings/voiceflow-toggle/");
    s
}

/// The properties of the keybinding: its name, the command it runs (which
/// writes `toggle` to the pipe) and its key combination.
pub open spec fn keybinding_properties_spec() -> Seq<(Seq<char>, Seq<char>)> {
    seq![
        ("name"@, "VoiceFlow Toggle"@),
        ("command"@, "sh -c 'echo toggle > "@ + pipe_path() + "'"@),
        ("binding"@, "<Control><Alt>s"@),
    ]
}

pub open spec fn pairs_text(v: Seq<(String, String)>) -> Seq<(Seq<char>, Seq<char>)> {
    v.map_values(|p: (String, String)| (p.0@, p.1@))
}

/// The properties of the keybinding, in the order they are set.
pub fn keybinding_properties() -> (r: Vec<(String, String)>)
    ensures
        pairs_text(r@) == keybinding_properties_spec(),
{
    let mut command = String::from_str("sh -c 'echo toggle > ");
    command.append("/tmp/voiceflow-hotkey");
    command.append("'");
    let v = vec![
        (String::from_str("name"), String::from_str("VoiceFlow Toggle")),
        (String::from_str("command"), command),
        (String::from_str("binding"), String::from_str("<Control><Alt>s")),
    ];
    assert(pairs_text(v@) =~= keybinding_properties_spec());
    v
}

/// `s` without the leading `c`s.
pub open spec fn strip_leading(s: Seq<char>, c: char) -> Seq<char>
    decreases s.len(),
{
    if s.len() > 0 && s[0] == c {
        strip_leading(s.drop_first(), c)
    } else {
        s
    }
}

/// `s` without the trailing `c`s.
pub open spec fn strip_trailing(s: Seq<char>, c: char) -> Seq<char>
    decreases s.len(),
{
    if s.len() > 0 && s.last() == c {
        strip_trailing(s.drop_last(), c)
    } else {
        s
    }
}

/// The keybinding entry as it stands in the list.
pub open spec fn quoted_path() -> Seq<char> {
    "'"@ + keybinding_path() + "'"@
}

/// The list of custom keybindings to set, given what `gsettings get` printed
/// for it: `None` when the list already holds this application's entry;
/// otherwise the list with the entry appended (a list of its own when the
/// printed list is empty, or when nothing was printed).
pub open spec fn updated_keybindings(output: Seq<char>) -> Option<Seq<char>> {
    let current = trim(output);
    if contains(current, quoted_path()) {
        None
    } else if current.len() == 0 || current == "@as []"@ || current == "[]"@ {
        Some("["@ + quoted_path() + "]"@)
    } else {
        Some("["@ + strip_trailing(strip_leading(current, '['), ']') + ", "@ + quoted_path() + "]"@)
    }
}

/// The characters of `v[lo..hi]`.
fn sub_chars(v: &Vec<char>, lo: usize, hi: usize) -> (r: Vec<char>)
    requires
        lo <= hi <= v@.len(),
    ensures
        r@ == v@.subrange(lo as int, hi as int),
{
    let mut r: Vec<char> = Vec::new();
    let mut i = lo;
    while i < hi
        invariant
            lo <= i <= hi <= v@.len(),
            r@ == v@.subrange(lo as int, i as int),
        decreases hi - i,
    {
        r.push(v[i]);
        assert(r@ =~= v@.subrange(lo as int, i + 1));
        i = i + 1;
    }
    r
}

/// Whether `v[lo..hi]` is exactly `p`.
fn range_is(v: &Vec<char>, lo: usize, hi: usize, p: &str) -> (r: bool)
    requires
        lo <= hi <= v@.len(),
    ensures
        r == (v@.subrange(lo as int, hi as int) == p@),
{
    let pc = chars_of(p);
    if hi - lo != pc.len() {
        return false;
    }
    let r = has_prefix(v, lo, hi, &pc);
    assert(v@.subrange(lo as int, hi as int).subrange(0, pc@.len() as int) =~= v@.subrange(lo as int, hi as int));
    r
}

/// The list of custom keybindings to set, given what `gsettings get`
/// printed for it.
pub fn keybinding_list_update(output: &str) -> (r: Option<String>)
    ensures
        match r {
            Some(s) => updated_keybindings(output@) == Some(s@),
            None => updated_keybindings(output@) is None,
        },
{
    let v = chars_of(output);
    let (a, b) = trim_range(&v, 0, v.len());
    assert(v@.subrange(0, v@.len() as int) =~= v@);
    let current = sub_chars(&v, a, b);
    let mut entry = String::from_str("'");
    entry.append("/org/gnome/settings-daemon/plugins/media-keys/custom-keybindings/voiceflow-toggle/");
    entry.append("'");
    if has_infix(&current, &chars_of(entry.as_str())) {
        return None;
    }
    let mut list = String::from_str("[");
    if a == b || range_is(&v, a, b, "@as []") || range_is(&v, a, b, "[]") {
        list.append(entry.as_str());
        list.append("]");
        return Some(list);
    }
    let mut s = a;
    while s < b && v[s] == '['
        invariant
            a <= s <= b <= v@.len(),
            strip_leading(v@.subrange(a as int, b as int), '[') == strip_leading(v@.subrange(s as int, b as int), '['),
        decreases b - s,
    {
        assert(v@.subrange(s as int, b as int).drop_first() =~= v@.subrange(s + 1, b as int));
        s = s + 1;
    }
    let mut e = b;
    while e > s && v[e - 1] == ']'
        invariant
            a <= s <= e <= b <= v@.len(),
            strip_trailing(strip_leading(v@.subrange(a as int, b as int), '['), ']')
                == strip_trailing(v@.subrange(s as int, e as int), ']'),
        decreases e - s,
    {
        assert(v@.subrange(s as int, e as int).drop_last() =~= v@.subrange(s as int, e - 1));
        e = e - 1;
    }
    list.append(output.substring_char(s, e));
    list.append(", ");
    list.append(entry.as_str());
    list.append("]");
    Some(list)
}

/// The event and payload that a line read from the pipe raises.
pub open spec fn pipe_event_spec(line: Seq<char>) -> Option<(Seq<char>, Seq<char>)> {
    let t = trim(line);
    if t == "toggle"@ {
        Some(("hotkey-toggle"@, "dictation"@))
    } else if t == "dictation"@ {
        Some(("hotkey-pressed"@, "dictation"@))
    } else if t == "command"@ {
        Some(("hotkey-pressed"@, "command"@))
    } else {
        None
    }
}

pub open spec fn event_view(e: Option<(String, String)>) -> Option<(Seq<char>, Seq<char>)> {
    match e {
        Some((a, b)) => Some((a@, b@)),
        None => None,
    }
}

fn event(name: &str, payload: &str) -> (r: Option<(String, String)>)
    ensures
        event_view(r) == Some((name@, payload@)),
{
    Some((String::from_str(name), String::from_str(payload)))
}

/// The event and payload that a line read from the pipe raises, if any.
pub fn pipe_event(line: &str) -> (r: Option<(String, String)>)
    ensures
        event_view(r) == pipe_event_spec(line@),
{
    let v = chars_of(line);
    let (a, b) = trim_range(&v, 0, v.len());
    assert(v@.subrange(0, v@.len() as int) =~= v@);
    if range_is(&v, a, b, "toggle") {
        event("hotkey-toggle", "dictation")
    } else if range_is(&v, a, b, "dictation") {
        event("hotkey-pressed", "dictation")
    } else if range_is(&v, a, b, "command") {
        event("hotkey-pressed", "command")
    } else {
        None
    }
}

/// The event and mode that a global shortcut raises: Ctrl+Alt+D is
/// dictation, Ctrl+Alt+C is a voice command, any other shortcut raises
/// nothing; a press raises `hotkey-pressed`, a release `hotkey-released`.
pub open spec fn shortcut_event_spec(is_dictation: bool, is_command: bool, pressed: bool) -> Option<(Seq<char>, Seq<char>)> {
    let name = if pressed { "hotkey-pressed"@ } else { "hotkey-released"@ };
    if is_dictation {
        Some((name, "dictation"@))
    } else if is_command {
        Some((name, "command"@))
    } else {
        None
    }
}

/// The event and mode that a global shortcut raises, if any.
pub fn shortcut_event(is_dictation: bool, is_command: bool, pressed: bool) -> (r: Option<(String, String)>)
    ensures
        event_view(r) == shortcut_event_spec(is_dictation, is_command, pressed),
{
    let name = if pressed { "hotkey-pressed" } else { "hotkey-released" };
    if is_dictation {
        event(name, "dictation")
    } else if is_command {
        event(name, "command")
    } else {
        None
    }
}

/// What a tray menu entry does.
#[derive(Clone, Copy, PartialEq, Eq, Structural, Debug)]
pub enum TrayAction {
    /// Show and focus the main window.
    ShowSettings,
    /// Leave the application.
    Quit,
    Nothing,
}

pub open spec fn tray_action_spec(id: Seq<char>) -> TrayAction {
    if id == "show"@ {
        TrayAction::ShowSettings
    } else if id == "quit"@ {
        TrayAction::Quit
    } else {
        TrayAction::Nothing
    }
}

/// What the tray menu entry `id` does.
pub fn tray_action(id: &str) -> (r: TrayAction)
    ensures
        r == tray_action_spec(id@),
{
    let v = chars_of(id);
    assert(v@.subrange(0, v@.len() as int) =~= v@);
    if range_is(&v, 0, v.len(), "show") {
        TrayAction::ShowSettings
    } else if range_is(&v, 0, v.len(), "quit") {
        TrayAction::Quit
    } else {
        TrayAction::Nothing
    }
}

proof fn lemma_bracketed_holds_entry(head: Seq<char>)
    requires
        head.len() >= 1,
        head[0] == '[',
    ensures
        ({
            let l = head + quoted_path() + "]"@;
            &&& trim(l) == l
            &&& contains(l, quoted_path())
        }),
{
    reveal_strlit("]");
    let q = quoted_path();
    let l = head + q + "]"@;
    assert(l[0] == '[');
    assert(l.last() == ']');
    assert(!is_ws('[') && !is_ws(']'));
    lemma_trim_of_unpadded(l);
    assert(l.subrange(head.len() as int, head.len() + q.len() as int) =~= q);
}

/// Registering the keybinding is idempotent: once the list has been updated,
/// reading it back asks for no further update.
pub proof fn law_keybinding_update_idempotent(output: Seq<char>)
    ensures
        updated_keybindings(output) matches Some(list) ==> updated_keybindings(list) is None,
{
    reveal_strlit("[");
    reveal_strlit(", ");
    let current = trim(output);
    if !contains(current, quoted_path()) {
        if current.len() == 0 || current == "@as []"@ || current == "[]"@ {
            lemma_bracketed_holds_entry("["@);
        } else {
            let head = "["@ + strip_trailing(strip_leading(current, '['), ']') + ", "@;
            assert(head[0] == '[');
            lemma_bracketed_holds_entry(head);
            assert(head + quoted_path() + "]"@ =~= "["@ + strip_trailing(strip_leading(current, '['), ']') + ", "@ + quoted_path() + "]"@);
        }
    }
}

} // verus!
