//! The user's settings: the stored configuration, the form the settings
//! screen reads and writes, and the hotkeys put in place of missing ones.
use vstd::prelude::*;

verus! {

/// The stored configuration.
#[derive(Clone)]
pub struct AppConfig {
    pub openai_api_key: String,
    pub dictation_hotkey: String,
    pub command_hotkey: String,
    pub toggle_hotkey: String,
    pub selected_mic: Option<String>,
    pub personal_dictionary: Vec<String>,
}

/// The settings as the settings screen reads and writes them.
#[derive(Clone)]
pub struct SettingsData {
    pub openai_api_key: String,
    pub dictation_hotkey: String,
    pub command_hotkey: String,
    pub toggle_hotkey: String,
    pub selected_mic: Option<String>,
    pub personal_dictionary: Vec<String>,
}

/// The content of a configuration or of a settings form.
pub struct Preferences {
    pub api_key: Seq<char>,
    pub dictation_hotkey: Seq<char>,
    pub command_hotkey: Seq<char>,
    pub toggle_hotkey: Seq<char>,
    pub selected_mic: Option<Seq<char>>,
    pub dictionary: Seq<Seq<char>>,
}

pub open spec fn opt_text(o: Option<String>) -> Option<Seq<char>> {
    match o {
        Some(s) => Some(s@),
        None => None,
    }
}

pub open spec fn texts(v: Seq<String>) -> Seq<Seq<char>> {
    v.map_values(|s: String| s@)
}

impl View for AppConfig {
    type V = Preferences;

    open spec fn view(&self) -> Preferences {
        Preferences {
            api_key: self.openai_api_key@,
            dictation_hotkey: self.dictation_hotkey@,
            command_hotkey: self.command_hotkey@,
            toggle_hotkey: self.toggle_hotkey@,
            selected_mic: opt_text(self.selected_mic),
            dictionary: texts(self.personal_dictionary@),
        }
    }
}

impl View for SettingsData {
    type V = Preferences;

    open spec fn view(&self) -> Preferences {
        Preferences {
            api_key: self.openai_api_key@,
            dictation_hotkey: self.dictation_hotkey@,
            command_hotkey: self.command_hotkey@,
            toggle_hotkey: self.toggle_hotkey@,
            selected_mic: opt_text(self.selected_mic),
            dictionary: texts(self.personal_dictionary@),
        }
    }
}

pub open spec fn default_dictation() -> Seq<char> {
    "Ctrl+Alt+D"@
}

pub open spec fn default_command() -> Seq<char> {
    "Ctrl+Alt+C"@
}

pub open spec fn default_toggle() -> Seq<char> {
    "Ctrl+Alt+S"@
}

/// The hotkey that starts dictation when none is set.
pub fn default_dictation_hotkey() -> (r: String)
    ensures
        r@ == default_dictation(),
{
    String::from_str("Ctrl+Alt+D")
}

/// The hotkey that starts a voice command when none is set.
pub fn default_command_hotkey() -> (r: String)
    ensures
        r@ == default_command(),
{
    String::from_str("Ctrl+Alt+C")
}

/// The hotkey that toggles dictation when none is set.
pub fn default_toggle_hotkey() -> (r: String)
    ensures
        r@ == default_toggle(),
{
    String::from_str("Ctrl+Alt+S")
}

/// A copy of `v`.
pub fn copy_texts(v: &Vec<String>) -> (r: Vec<String>)
    ensures
        r@ == v@,
{
    let mut r: Vec<String> = Vec::new();
    let mut i: usize = 0;
    while i < v.len()
        invariant
            i <= v@.len(),
            r@ == v@.take(i as int),
        decreases v@.len() - i,
    {
        r.push(v[i].clone());
        assert(r@ =~= v@.take(i + 1));
        i = i + 1;
    }
    assert(v@.take(i as int) =~= v@);
    r
}

/// A copy of `o`.
pub fn copy_opt_text(o: &Option<String>) -> (r: Option<String>)
    ensures
        r == *o,
{
    match o {
        Some(s) => Some(s.clone()),
        None => None,
    }
}

/// The empty configuration: no key, no hotkeys, no microphone, no dictionary.
pub open spec fn empty_preferences() -> Preferences {
    Preferences {
        api_key: Seq::empty(),
        dictation_hotkey: Seq::empty(),
        command_hotkey: Seq::empty(),
        toggle_hotkey: Seq::empty(),
        selected_mic: None,
        dictionary: Seq::empty(),
    }
}

impl Default for AppConfig {
    fn default() -> (r: AppConfig)
        ensures
            r@ == empty_preferences(),
    {
        let r = AppConfig {
            openai_api_key: String::new(),
            dictation_hotkey: String::new(),
            command_hotkey: String::new(),
            toggle_hotkey: String::new(),
            selected_mic: None,
            personal_dictionary: Vec::new(),
        };
        assert(texts(r.personal_dictionary@) =~= Seq::<Seq<char>>::empty());
        r
    }
}

/// The configuration the application starts with: the default hotkeys and
/// nothing else.
pub open spec fn initial_preferences() -> Preferences {
    Preferences {
        api_key: Seq::empty(),
        dictation_hotkey: default_dictation(),
        command_hotkey: default_command(),
        toggle_hotkey: default_toggle(),
        selected_mic: None,
        dictionary: Seq::empty(),
    }
}

/// The configuration the application starts with.
pub fn initial_config() -> (r: AppConfig)
    ensures
        r@ == initial_preferences(),
{
    let r = AppConfig {
        openai_api_key: String::new(),
        dictation_hotkey: default_dictation_hotkey(),
        command_hotkey: default_command_hotkey(),
        toggle_hotkey: default_toggle_hotkey(),
        selected_mic: None,
        personal_dictionary: Vec::new(),
    };
    assert(texts(r.personal_dictionary@) =~= Seq::<Seq<char>>::empty());
    r
}

/// `hotkey`, or `default` when it is empty.
pub open spec fn or_default(hotkey: Seq<char>, default: Seq<char>) -> Seq<char> {
    if hotkey.len() == 0 { default } else { hotkey }
}

/// A loaded configuration with each empty hotkey replaced by its default.
pub open spec fn with_default_hotkeys(p: Preferences) -> Preferences {
    Preferences {
        api_key: p.api_key,
        dictation_hotkey: or_default(p.dictation_hotkey, default_dictation()),
        command_hotkey: or_default(p.command_hotkey, default_command()),
        toggle_hotkey: or_default(p.toggle_hotkey, default_toggle()),
        selected_mic: p.selected_mic,
        dictionary: p.dictionary,
    }
}

/// Fills in the hotkeys that a loaded configuration leaves empty.
pub fn fill_default_hotkeys(cfg: AppConfig) -> (r: AppConfig)
    ensures
        r@ == with_default_hotkeys(cfg@),
{
    let mut cfg = cfg;
    if cfg.dictation_hotkey.as_str().is_empty() {
        cfg.dictation_hotkey = default_dictation_hotkey();
    }
    if cfg.command_hotkey.as_str().is_empty() {
        cfg.command_hotkey = default_command_hotkey();
    }
    if cfg.toggle_hotkey.as_str().is_empty() {
        cfg.toggle_hotkey = default_toggle_hotkey();
    }
    cfg
}

/// The settings form that shows configuration `c`: every setting as stored.
pub open spec fn shown_settings(c: Preferences) -> Preferences {
    Preferences {
        api_key: c.api_key,
        dictation_hotkey: c.dictation_hotkey,
        command_hotkey: c.command_hotkey,
        toggle_hotkey: c.toggle_hotkey,
        selected_mic: c.selected_mic,
        dictionary: c.dictionary,
    }
}

/// Configuration `c` after the settings form `s` is saved: every setting is
/// taken from the form.
pub open spec fn updated_config(c: Preferences, s: Preferences) -> Preferences {
    Preferences {
        api_key: s.api_key,
        dictation_hotkey: s.dictation_hotkey,
        command_hotkey: s.command_hotkey,
        toggle_hotkey: s.toggle_hotkey,
        selected_mic: s.selected_mic,
        dictionary: s.dictionary,
    }
}

/// The settings form filled from the configuration.
pub fn settings_from_config(config: &AppConfig) -> (r: SettingsData)
    ensures
        r@ == shown_settings(config@),
{
    SettingsData {
        openai_api_key: config.openai_api_key.clone(),
        dictation_hotkey: config.dictation_hotkey.clone(),
        command_hotkey: config.command_hotkey.clone(),
        toggle_hotkey: config.toggle_hotkey.clone(),
        selected_mic: copy_opt_text(&config.selected_mic),
        personal_dictionary: copy_texts(&config.personal_dictionary),
    }
}

impl AppConfig {
    /// Takes every setting of the form into the configuration.
    pub fn apply_settings(&mut self, settings: SettingsData)
        ensures
            final(self)@ == updated_config(old(self)@, settings@),
    {
        self.openai_api_key = settings.openai_api_key;
        self.dictation_hotkey = settings.dictation_hotkey;
        self.command_hotkey = settings.command_hotkey;
        self.toggle_hotkey = settings.toggle_hotkey;
        self.selected_mic = settings.selected_mic;
        self.personal_dictionary = settings.personal_dictionary;
    }
}

/// The settings read back after an update are the settings written, whatever
/// the configuration held before; saving the settings as they are shown
/// leaves the configuration as it was.
pub proof fn law_settings_read_after_write(c: Preferences, s: Preferences)
    ensures
        shown_settings(updated_config(c, s)) == s,
        updated_config(c, shown_settings(c)) == c,
        updated_config(updated_config(c, s), s) == updated_config(c, s),
{
}

/// Filling in default hotkeys leaves a configuration whose hotkeys are all
/// set, keeps every hotkey that was set and every other setting, and a second
/// filling changes nothing.
pub proof fn law_default_hotkeys(p: Preferences)
    ensures
        with_default_hotkeys(p).dictation_hotkey.len() > 0,
        with_default_hotkeys(p).command_hotkey.len() > 0,
        with_default_hotkeys(p).toggle_hotkey.len() > 0,
        p.dictation_hotkey.len() > 0 ==> with_default_hotkeys(p).dictation_hotkey == p.dictation_hotkey,
        p.command_hotkey.len() > 0 ==> with_default_hotkeys(p).command_hotkey == p.command_hotkey,
        p.toggle_hotkey.len() > 0 ==> with_default_hotkeys(p).toggle_hotkey == p.toggle_hotkey,
        with_default_hotkeys(p).api_key == p.api_key,
        with_default_hotkeys(p).selected_mic == p.selected_mic,
        with_default_hotkeys(p).dictionary == p.dictionary,
        with_default_hotkeys(with_default_hotkeys(p)) == with_default_hotkeys(p),
        with_default_hotkeys(initial_preferences()) == initial_preferences(),
{
    reveal_strlit("Ctrl+Alt+D");
    reveal_strlit("Ctrl+Alt+C");
    reveal_strlit("Ctrl+Alt+S");
}

} // verus!
