//! Putting text into the focused application and reading the selected text
//! out of it, as state machines: the host performs each effect that a step
//! asks for and hands back what happened, until the flow finishes.
use vstd::prelude::*;
use crate::text::prefixed;
use crate::session::{Effect, EffectModel, Keystroke, Outcome, OutcomeModel, Platform, Step, StepModel};

verus! {

/// Where a text injection stands.
#[derive(Clone, Copy, PartialEq, Eq, Structural, Debug)]
pub enum InjectPhase {
    Begin,
    /// Linux: `wl-copy` is putting the text on the clipboard.
    WlCopying,
    /// Linux: `xclip` is putting the text on the clipboard.
    XclipCopying,
    /// The clipboard is being written directly.
    WritingClipboard,
    /// Elsewhere: the previous clipboard text is being read.
    SavingClipboard,
    /// Linux: waiting before the paste.
    Settling,
    /// Elsewhere: waiting before the paste.
    BeforePaste,
    /// Linux: `xdotool` is pressing Ctrl+V.
    XdotoolPasting,
    KeyboardStarting,
    CtrlPressing,
    KeyClicking,
    CtrlReleasing,
    /// Elsewhere: waiting after the paste.
    AfterPaste,
    /// Elsewhere: the previous clipboard text is being put back.
    Restoring,
    Finished,
}

/// A text injection under way.
pub struct TextInjection {
    text: String,
    platform: Platform,
    saved: String,
    phase: InjectPhase,
}

pub struct InjectModel {
    pub text: Seq<char>,
    pub platform: Platform,
    pub saved: Seq<char>,
    pub phase: InjectPhase,
}

impl View for TextInjection {
    type V = InjectModel;

    closed spec fn view(&self) -> InjectModel {
        InjectModel { text: self.text@, platform: self.platform, saved: self.saved@, phase: self.phase }
    }
}

/// A text read from the clipboard; a failed read counts as empty.
pub open spec fn clipboard_text(o: OutcomeModel) -> Seq<char> {
    match o {
        OutcomeModel::Text(t) => t,
        _ => Seq::empty(),
    }
}

/// A text captured from `wl-paste`; a failed run or unreadable output counts as empty.
pub open spec fn captured_text(o: OutcomeModel) -> Seq<char> {
    match o {
        OutcomeModel::Captured(true, Some(t)) => t,
        _ => Seq::empty(),
    }
}

pub open spec fn succeeded(o: OutcomeModel) -> bool {
    o matches OutcomeModel::Exited(b) && b
}

/// The error of a failed clipboard write.
pub open spec fn clipboard_write_error(o: OutcomeModel) -> Option<Seq<char>> {
    match o {
        OutcomeModel::OpenFailed(e) => Some("Clipboard error: "@ + e),
        OutcomeModel::Failed(e) => Some("Clipboard write error: "@ + e),
        _ => None,
    }
}

pub open spec fn with_phase(m: InjectModel, phase: InjectPhase) -> InjectModel {
    InjectModel { text: m.text, platform: m.platform, saved: m.saved, phase }
}

/// One step of a text injection.
///
/// On Linux the text goes to the clipboard through `wl-copy`, else `xclip`,
/// else the clipboard directly; after 100 ms `xdotool` presses Ctrl+V, else
/// the keyboard simulator does. Elsewhere the clipboard text is saved, the
/// text is put on the clipboard, after 50 ms the keyboard simulator presses
/// Ctrl+V, and after another 100 ms the saved text is put back when it is not
/// empty.
pub open spec fn inject_next(m: InjectModel, o: OutcomeModel) -> (InjectModel, StepModel<()>) {
    match m.phase {
        InjectPhase::Begin => match m.platform {
            Platform::Linux => (with_phase(m, InjectPhase::WlCopying), StepModel::Perform(EffectModel::WlCopy(m.text))),
            Platform::Other => (with_phase(m, InjectPhase::SavingClipboard), StepModel::Perform(EffectModel::ReadClipboard)),
        },
        InjectPhase::WlCopying => if succeeded(o) {
            (with_phase(m, InjectPhase::Settling), StepModel::Perform(EffectModel::Sleep(100)))
        } else {
            (with_phase(m, InjectPhase::XclipCopying), StepModel::Perform(EffectModel::XclipCopy(m.text)))
        },
        InjectPhase::XclipCopying => if succeeded(o) {
            (with_phase(m, InjectPhase::Settling), StepModel::Perform(EffectModel::Sleep(100)))
        } else {
            (with_phase(m, InjectPhase::WritingClipboard), StepModel::Perform(EffectModel::WriteClipboard(m.text)))
        },
        InjectPhase::SavingClipboard => (
            InjectModel { text: m.text, platform: m.platform, saved: clipboard_text(o), phase: InjectPhase::WritingClipboard },
            StepModel::Perform(EffectModel::WriteClipboard(m.text)),
        ),
        InjectPhase::WritingClipboard => match clipboard_write_error(o) {
            Some(e) => (with_phase(m, InjectPhase::Finished), StepModel::Finish(Err(e))),
            None => match m.platform {
                Platform::Linux => (with_phase(m, InjectPhase::Settling), StepModel::Perform(EffectModel::Sleep(100))),
                Platform::Other => (with_phase(m, InjectPhase::BeforePaste), StepModel::Perform(EffectModel::Sleep(50))),
            },
        },
        InjectPhase::Settling => (with_phase(m, InjectPhase::XdotoolPasting), StepModel::Perform(EffectModel::Xdotool("ctrl+v"@))),
        InjectPhase::BeforePaste => (with_phase(m, InjectPhase::KeyboardStarting), StepModel::Perform(EffectModel::StartKeyboard)),
        InjectPhase::XdotoolPasting => if succeeded(o) {
            (with_phase(m, InjectPhase::Finished), StepModel::Finish(Ok(())))
        } else {
            (with_phase(m, InjectPhase::KeyboardStarting), StepModel::Perform(EffectModel::StartKeyboard))
        },
        InjectPhase::KeyboardStarting => match o {
            OutcomeModel::Failed(e) => (with_phase(m, InjectPhase::Finished), StepModel::Finish(Err("Failed to create Enigo instance: "@ + e))),
            _ => (with_phase(m, InjectPhase::CtrlPressing), StepModel::Perform(EffectModel::Key(Keystroke::PressControl))),
        },
        InjectPhase::CtrlPressing => match o {
            OutcomeModel::Failed(e) => (with_phase(m, InjectPhase::Finished), StepModel::Finish(Err("Failed to press Ctrl: "@ + e))),
            _ => (with_phase(m, InjectPhase::KeyClicking), StepModel::Perform(EffectModel::Key(Keystroke::Click('v')))),
        },
        InjectPhase::KeyClicking => match o {
            OutcomeModel::Failed(e) => (with_phase(m, InjectPhase::Finished), StepModel::Finish(Err("Failed to press V: "@ + e))),
            _ => (with_phase(m, InjectPhase::CtrlReleasing), StepModel::Perform(EffectModel::Key(Keystroke::ReleaseControl))),
        },
        InjectPhase::CtrlReleasing => match o {
            OutcomeModel::Failed(e) => (with_phase(m, InjectPhase::Finished), StepModel::Finish(Err("Failed to release Ctrl: "@ + e))),
            _ => match m.platform {
                Platform::Linux => (with_phase(m, InjectPhase::Finished), StepModel::Finish(Ok(()))),
                Platform::Other => (with_phase(m, InjectPhase::AfterPaste), StepModel::Perform(EffectModel::Sleep(100))),
            },
        },
        InjectPhase::AfterPaste => if m.saved.len() > 0 {
            (with_phase(m, InjectPhase::Restoring), StepModel::Perform(EffectModel::WriteClipboard(m.saved)))
        } else {
            (with_phase(m, InjectPhase::Finished), StepModel::Finish(Ok(())))
        },
        InjectPhase::Restoring => (with_phase(m, InjectPhase::Finished), StepModel::Finish(Ok(()))),
        InjectPhase::Finished => (m, StepModel::Finish(Ok(()))),
    }
}

fn is_success(o: &Outcome) -> (r: bool)
    ensures
        r == succeeded(o@),
{
    match o {
        Outcome::Exited(b) => *b,
        _ => false,
    }
}

fn clipboard_text_of(o: Outcome) -> (r: String)
    ensures
        r@ == clipboard_text(o@),
{
    match o {
        Outcome::Text(t) => t,
        _ => String::new(),
    }
}

fn clipboard_write_error_of(o: &Outcome) -> (r: Option<String>)
    ensures
        match r {
            Some(e) => clipboard_write_error(o@) == Some(e@),
            None => clipboard_write_error(o@) is None,
        },
{
    match o {
        Outcome::OpenFailed(e) => Some(prefixed("Clipboard error: ", e.as_str())),
        Outcome::Failed(e) => Some(prefixed("Clipboard write error: ", e.as_str())),
        _ => None,
    }
}

/// Starts putting `text` into the focused application.
pub fn inject_text(text: &str, platform: Platform) -> (r: TextInjection)
    ensures
        r@ == (InjectModel { text: text@, platform, saved: Seq::empty(), phase: InjectPhase::Begin }),
{
    TextInjection { text: String::from_str(text), platform, saved: String::new(), phase: InjectPhase::Begin }
}

impl TextInjection {
    pub open spec fn finished(&self) -> bool {
        self@.phase == InjectPhase::Finished
    }

    pub fn is_finished(&self) -> (r: bool)
        ensures
            r == self.finished(),
    {
        self.phase == InjectPhase::Finished
    }

    /// Takes what the last effect gave and says what comes next.
    pub fn step(&mut self, outcome: Outcome) -> (r: Step<()>)
        requires
            !old(self).finished(),
        ensures
            (final(self)@, r@) == inject_next(old(self)@, outcome@),
    {
        let ghost m = self@;
        let ghost o = outcome@;
        match self.phase {
            InjectPhase::Begin => match self.platform {
                Platform::Linux => {
                    self.phase = InjectPhase::WlCopying;
                    Step::Perform(Effect::WlCopy(self.text.clone()))
                },
                Platform::Other => {
                    self.phase = InjectPhase::SavingClipboard;
                    Step::Perform(Effect::ReadClipboard)
                },
            },
            InjectPhase::WlCopying => if is_success(&outcome) {
                self.phase = InjectPhase::Settling;
                Step::Perform(Effect::Sleep(100))
            } else {
                self.phase = InjectPhase::XclipCopying;
                Step::Perform(Effect::XclipCopy(self.text.clone()))
            },
            InjectPhase::XclipCopying => if is_success(&outcome) {
                self.phase = InjectPhase::Settling;
                Step::Perform(Effect::Sleep(100))
            } else {
                self.phase = InjectPhase::WritingClipboard;
                Step::Perform(Effect::WriteClipboard(self.text.clone()))
            },
            InjectPhase::SavingClipboard => {
                self.saved = clipboard_text_of(outcome);
                self.phase = InjectPhase::WritingClipboard;
                Step::Perform(Effect::WriteClipboard(self.text.clone()))
            },
            InjectPhase::WritingClipboard => match clipboard_write_error_of(&outcome) {
                Some(e) => {
                    self.phase = InjectPhase::Finished;
                    Step::Finish(Err(e))
                },
                None => match self.platform {
                    Platform::Linux => {
                        self.phase = InjectPhase::Settling;
                        Step::Perform(Effect::Sleep(100))
                    },
                    Platform::Other => {
                        self.phase = InjectPhase::BeforePaste;
                        Step::Perform(Effect::Sleep(50))
                    },
                },
            },
            InjectPhase::Settling => {
                self.phase = InjectPhase::XdotoolPasting;
                Step::Perform(Effect::Xdotool(String::from_str("ctrl+v")))
            },
            InjectPhase::BeforePaste => {
                self.phase = InjectPhase::KeyboardStarting;
                Step::Perform(Effect::StartKeyboard)
            },
            InjectPhase::XdotoolPasting => if is_success(&outcome) {
                self.phase = InjectPhase::Finished;
                Step::Finish(Ok(()))
            } else {
                self.phase = InjectPhase::KeyboardStarting;
                Step::Perform(Effect::StartKeyboard)
            },
            InjectPhase::KeyboardStarting => match outcome {
                Outcome::Failed(e) => {
                    self.phase = InjectPhase::Finished;
                    Step::Finish(Err(prefixed("Failed to create Enigo instance: ", e.as_str())))
                },
                _ => {
                    self.phase = InjectPhase::CtrlPressing;
                    Step::Perform(Effect::Key(Keystroke::PressControl))
                },
            },
            InjectPhase::CtrlPressing => match outcome {
                Outcome::Failed(e) => {
                    self.phase = InjectPhase::Finished;
                    Step::Finish(Err(prefixed("Failed to press Ctrl: ", e.as_str())))
                },
                _ => {
                    self.phase = InjectPhase::KeyClicking;
                    Step::Perform(Effect::Key(Keystroke::Click('v')))
                },
            },
            InjectPhase::KeyClicking => match outcome {
                Outcome::Failed(e) => {
                    self.phase = InjectPhase::Finished;
                    Step::Finish(Err(prefixed("Failed to press V: ", e.as_str())))
                },
                _ => {
                    self.phase = InjectPhase::CtrlReleasing;
                    Step::Perform(Effect::Key(Keystroke::ReleaseControl))
                },
            },
            InjectPhase::CtrlReleasing => match outcome {
                Outcome::Failed(e) => {
                    self.phase = InjectPhase::Finished;
                    Step::Finish(Err(prefixed("Failed to release Ctrl: ", e.as_str())))
                },
                _ => match self.platform {
                    Platform::Linux => {
                        self.phase = InjectPhase::Finished;
                        Step::Finish(Ok(()))
                    },
                    Platform::Other => {
                        self.phase = InjectPhase::AfterPaste;
                        Step::Perform(Effect::Sleep(100))
                    },
                },
            },
            InjectPhase::AfterPaste => if self.saved.as_str().is_empty() {
                self.phase = InjectPhase::Finished;
                Step::Finish(Ok(()))
            } else {
                self.phase = InjectPhase::Restoring;
                Step::Perform(Effect::WriteClipboard(self.saved.clone()))
            },
            InjectPhase::Restoring => {
                self.phase = InjectPhase::Finished;
                Step::Finish(Ok(()))
            },
            InjectPhase::Finished => Step::Finish(Ok(())),
        }
    }
}

/// Where a selection capture stands.
#[derive(Clone, Copy, PartialEq, Eq, Structural, Debug)]
pub enum SelectPhase {
    Begin,
    /// The clipboard text is being saved.
    SavingClipboard,
    /// The clipboard is being emptied.
    Clearing,
    /// Waiting before the copy.
    Pausing,
    /// Linux: `xdotool` is pressing Ctrl+C.
    XdotoolCopying,
    KeyboardStarting,
    CtrlPressing,
    KeyClicking,
    CtrlReleasing,
    /// Waiting for the copy to land on the clipboard.
    Waiting,
    /// The clipboard is being read.
    Reading,
    /// The saved clipboard text is being put back.
    Restoring,
    Finished,
}

/// A selection capture under way.
pub struct SelectionCapture {
    platform: Platform,
    saved: String,
    selected: String,
    phase: SelectPhase,
}

pub struct SelectModel {
    pub platform: Platform,
    pub saved: Seq<char>,
    pub selected: Seq<char>,
    pub phase: SelectPhase,
}

impl View for SelectionCapture {
    type V = SelectModel;

    closed spec fn view(&self) -> SelectModel {
        SelectModel { platform: self.platform, saved: self.saved@, selected: self.selected@, phase: self.phase }
    }
}

pub open spec fn to_phase(m: SelectModel, phase: SelectPhase) -> SelectModel {
    SelectModel { platform: m.platform, saved: m.saved, selected: m.selected, phase }
}

/// The clipboard text that a read on `platform` gave.
pub open spec fn read_text(platform: Platform, o: OutcomeModel) -> Seq<char> {
    match platform {
        Platform::Linux => captured_text(o),
        Platform::Other => clipboard_text(o),
    }
}

/// Reading the clipboard on `platform`.
pub open spec fn read_effect(platform: Platform) -> EffectModel {
    match platform {
        Platform::Linux => EffectModel::WlPaste,
        Platform::Other => EffectModel::ReadClipboard,
    }
}

/// Putting `t` on the clipboard on `platform`.
pub open spec fn write_effect(platform: Platform, t: Seq<char>) -> EffectModel {
    match platform {
        Platform::Linux => EffectModel::WlCopy(t),
        Platform::Other => EffectModel::WriteClipboard(t),
    }
}

/// The result of a capture that read `selected`.
pub open spec fn selection_result(selected: Seq<char>) -> Result<Seq<char>, Seq<char>> {
    if selected.len() == 0 {
        Err("No text selected"@)
    } else {
        Ok(selected)
    }
}

/// One step of a selection capture.
///
/// The clipboard text is saved and the clipboard emptied; after 50 ms Ctrl+C
/// is pressed (on Linux by `xdotool`, else, and elsewhere, by the keyboard
/// simulator); after 150 ms (Linux) or 100 ms the clipboard is read, the
/// saved text is put back when it is not empty, and the text read is the
/// selection, or the error `No text selected` when it is empty.
pub open spec fn select_next(m: SelectModel, o: OutcomeModel) -> (SelectModel, StepModel<Seq<char>>) {
    match m.phase {
        SelectPhase::Begin => (to_phase(m, SelectPhase::SavingClipboard), StepModel::Perform(read_effect(m.platform))),
        SelectPhase::SavingClipboard => (
            SelectModel { platform: m.platform, saved: read_text(m.platform, o), selected: m.selected, phase: SelectPhase::Clearing },
            StepModel::Perform(write_effect(m.platform, Seq::empty())),
        ),
        SelectPhase::Clearing => match m.platform {
            Platform::Linux => (to_phase(m, SelectPhase::Pausing), StepModel::Perform(EffectModel::Sleep(50))),
            Platform::Other => match clipboard_write_error(o) {
                Some(e) => (to_phase(m, SelectPhase::Finished), StepModel::Finish(Err(e))),
                None => (to_phase(m, SelectPhase::Pausing), StepModel::Perform(EffectModel::Sleep(50))),
            },
        },
        SelectPhase::Pausing => match m.platform {
            Platform::Linux => (to_phase(m, SelectPhase::XdotoolCopying), StepModel::Perform(EffectModel::Xdotool("ctrl+c"@))),
            Platform::Other => (to_phase(m, SelectPhase::KeyboardStarting), StepModel::Perform(EffectModel::StartKeyboard)),
        },
        SelectPhase::XdotoolCopying => if succeeded(o) {
            (to_phase(m, SelectPhase::Waiting), StepModel::Perform(EffectModel::Sleep(150)))
        } else {
            (to_phase(m, SelectPhase::KeyboardStarting), StepModel::Perform(EffectModel::StartKeyboard))
        },
        SelectPhase::KeyboardStarting => match o {
            OutcomeModel::Failed(e) => (to_phase(m, SelectPhase::Finished), StepModel::Finish(Err("Failed to create Enigo instance: "@ + e))),
            _ => (to_phase(m, SelectPhase::CtrlPressing), StepModel::Perform(EffectModel::Key(Keystroke::PressControl))),
        },
        SelectPhase::CtrlPressing => match o {
            OutcomeModel::Failed(e) => (to_phase(m, SelectPhase::Finished), StepModel::Finish(Err("Failed to press Ctrl: "@ + e))),
            _ => (to_phase(m, SelectPhase::KeyClicking), StepModel::Perform(EffectModel::Key(Keystroke::Click('c')))),
        },
        SelectPhase::KeyClicking => match o {
            OutcomeModel::Failed(e) => (to_phase(m, SelectPhase::Finished), StepModel::Finish(Err("Failed to press C: "@ + e))),
            _ => (to_phase(m, SelectPhase::CtrlReleasing), StepModel::Perform(EffectModel::Key(Keystroke::ReleaseControl))),
        },
        SelectPhase::CtrlReleasing => match o {
            OutcomeModel::Failed(e) => (to_phase(m, SelectPhase::Finished), StepModel::Finish(Err("Failed to release Ctrl: "@ + e))),
            _ => (
                to_phase(m, SelectPhase::Waiting),
                StepModel::Perform(EffectModel::Sleep(if m.platform == Platform::Linux { 150 } else { 100 })),
            ),
        },
        SelectPhase::Waiting => (to_phase(m, SelectPhase::Reading), StepModel::Perform(read_effect(m.platform))),
        SelectPhase::Reading => {
            let selected = read_text(m.platform, o);
            if m.saved.len() > 0 {
                (
                    SelectModel { platform: m.platform, saved: m.saved, selected, phase: SelectPhase::Restoring },
                    StepModel::Perform(write_effect(m.platform, m.saved)),
                )
            } else {
                (
                    SelectModel { platform: m.platform, saved: m.saved, selected, phase: SelectPhase::Finished },
                    StepModel::Finish(selection_result(selected)),
                )
            }
        },
        SelectPhase::Restoring => (to_phase(m, SelectPhase::Finished), StepModel::Finish(selection_result(m.selected))),
        SelectPhase::Finished => (m, StepModel::Finish(selection_result(m.selected))),
    }
}

fn captured_text_of(o: Outcome) -> (r: String)
    ensures
        r@ == captured_text(o@),
{
    match o {
        Outcome::Captured(true, Some(t)) => t,
        _ => String::new(),
    }
}

fn read_text_of(platform: Platform, o: Outcome) -> (r: String)
    ensures
        r@ == read_text(platform, o@),
{
    match platform {
        Platform::Linux => captured_text_of(o),
        Platform::Other => clipboard_text_of(o),
    }
}

fn read_effect_for(platform: Platform) -> (r: Effect)
    ensures
        r@ == read_effect(platform),
{
    match platform {
        Platform::Linux => Effect::WlPaste,
        Platform::Other => Effect::ReadClipboard,
    }
}

fn write_effect_for(platform: Platform, t: String) -> (r: Effect)
    ensures
        r@ == write_effect(platform, t@),
{
    match platform {
        Platform::Linux => Effect::WlCopy(t),
        Platform::Other => Effect::WriteClipboard(t),
    }
}

fn selection_result_of(selected: String) -> (r: Result<String, String>)
    ensures
        match r {
            Ok(s) => selection_result(selected@) == Ok::<Seq<char>, Seq<char>>(s@),
            Err(e) => selection_result(selected@) == Err::<Seq<char>, Seq<char>>(e@),
        },
{
    if selected.as_str().is_empty() {
        Err(String::from_str("No text selected"))
    } else {
        Ok(selected)
    }
}

/// Starts reading the text selected in the focused application.
pub fn get_selected_text(platform: Platform) -> (r: SelectionCapture)
    ensures
        r@ == (SelectModel { platform, saved: Seq::empty(), selected: Seq::empty(), phase: SelectPhase::Begin }),
{
    SelectionCapture { platform, saved: String::new(), selected: String::new(), phase: SelectPhase::Begin }
}

impl SelectionCapture {
    pub open spec fn finished(&self) -> bool {
        self@.phase == SelectPhase::Finished
    }

    pub fn is_finished(&self) -> (r: bool)
        ensures
            r == self.finished(),
    {
        self.phase == SelectPhase::Finished
    }

    /// Takes what the last effect gave and says what comes next.
    pub fn step(&mut self, outcome: Outcome) -> (r: Step<String>)
        requires
            !old(self).finished(),
        ensures
            (final(self)@, r@) == select_next(old(self)@, outcome@),
    {
        match self.phase {
            SelectPhase::Begin => {
                self.phase = SelectPhase::SavingClipboard;
                Step::Perform(read_effect_for(self.platform))
            },
            SelectPhase::SavingClipboard => {
                self.saved = read_text_of(self.platform, outcome);
                self.phase = SelectPhase::Clearing;
                Step::Perform(write_effect_for(self.platform, String::new()))
            },
            SelectPhase::Clearing => match self.platform {
                Platform::Linux => {
                    self.phase = SelectPhase::Pausing;
                    Step::Perform(Effect::Sleep(50))
                },
                Platform::Other => match clipboard_write_error_of(&outcome) {
                    Some(e) => {
                        self.phase = SelectPhase::Finished;
                        Step::Finish(Err(e))
                    },
                    None => {
                        self.phase = SelectPhase::Pausing;
                        Step::Perform(Effect::Sleep(50))
                    },
                },
            },
            SelectPhase::Pausing => match self.platform {
                Platform::Linux => {
                    self.phase = SelectPhase::XdotoolCopying;
                    Step::Perform(Effect::Xdotool(String::from_str("ctrl+c")))
                },
                Platform::Other => {
                    self.phase = SelectPhase::KeyboardStarting;
                    Step::Perform(Effect::StartKeyboard)
                },
            },
            SelectPhase::XdotoolCopying => if is_success(&outcome) {
                self.phase = SelectPhase::Waiting;
                Step::Perform(Effect::Sleep(150))
            } else {
                self.phase = SelectPhase::KeyboardStarting;
                Step::Perform(Effect::StartKeyboard)
            },
            SelectPhase::KeyboardStarting => match outcome {
                Outcome::Failed(e) => {
                    self.phase = SelectPhase::Finished;
                    Step::Finish(Err(prefixed("Failed to create Enigo instance: ", e.as_str())))
                },
                _ => {
                    self.phase = SelectPhase::CtrlPressing;
                    Step::Perform(Effect::Key(Keystroke::PressControl))
                },
            },
            SelectPhase::CtrlPressing => match outcome {
                Outcome::Failed(e) => {
                    self.phase = SelectPhase::Finished;
                    Step::Finish(Err(prefixed("Failed to press Ctrl: ", e.as_str())))
                },
                _ => {
                    self.phase = SelectPhase::KeyClicking;
                    Step::Perform(Effect::Key(Keystroke::Click('c')))
                },
            },
            SelectPhase::KeyClicking => match outcome {
                Outcome::Failed(e) => {
                    self.phase = SelectPhase::Finished;
                    Step::Finish(Err(prefixed("Failed to press C: ", e.as_str())))
                },
                _ => {
                    self.phase = SelectPhase::CtrlReleasing;
                    Step::Perform(Effect::Key(Keystroke::ReleaseControl))
                },
            },
            SelectPhase::CtrlReleasing => match outcome {
                Outcome::Failed(e) => {
                    self.phase = SelectPhase::Finished;
                    Step::Finish(Err(prefixed("Failed to release Ctrl: ", e.as_str())))
                },
                _ => {
                    self.phase = SelectPhase::Waiting;
                    let ms: u64 = match self.platform {
                        Platform::Linux => 150,
                        Platform::Other => 100,
                    };
                    Step::Perform(Effect::Sleep(ms))
                },
            },
            SelectPhase::Waiting => {
                self.phase = SelectPhase::Reading;
                Step::Perform(read_effect_for(self.platform))
            },
            SelectPhase::Reading => {
                self.selected = read_text_of(self.platform, outcome);
                if self.saved.as_str().is_empty() {
                    self.phase = SelectPhase::Finished;
                    Step::Finish(selection_result_of(self.selected.clone()))
                } else {
                    self.phase = SelectPhase::Restoring;
                    Step::Perform(write_effect_for(self.platform, self.saved.clone()))
                }
            },
            SelectPhase::Restoring => {
                self.phase = SelectPhase::Finished;
                Step::Finish(selection_result_of(self.selected.clone()))
            },
            SelectPhase::Finished => Step::Finish(selection_result_of(self.selected.clone())),
        }
    }
}

/// The clipboard text that an effect puts on the clipboard, if it puts any.
pub open spec fn written_text(e: EffectModel) -> Option<Seq<char>> {
    match e {
        EffectModel::WlCopy(t) => Some(t),
        EffectModel::XclipCopy(t) => Some(t),
        EffectModel::WriteClipboard(t) => Some(t),
        _ => None,
    }
}

/// How far a text injection has come: every step moves it forward.
pub open spec fn inject_rank(p: InjectPhase) -> nat {
    match p {
        InjectPhase::Begin => 0,
        InjectPhase::WlCopying => 1,
        InjectPhase::XclipCopying => 2,
        InjectPhase::SavingClipboard => 2,
        InjectPhase::WritingClipboard => 3,
        InjectPhase::Settling => 4,
        InjectPhase::BeforePaste => 4,
        InjectPhase::XdotoolPasting => 5,
        InjectPhase::KeyboardStarting => 6,
        InjectPhase::CtrlPressing => 7,
        InjectPhase::KeyClicking => 8,
        InjectPhase::CtrlReleasing => 9,
        InjectPhase::AfterPaste => 10,
        InjectPhase::Restoring => 11,
        InjectPhase::Finished => 12,
    }
}

/// How far a selection capture has come: every step moves it forward.
pub open spec fn select_rank(p: SelectPhase) -> nat {
    match p {
        SelectPhase::Begin => 0,
        SelectPhase::SavingClipboard => 1,
        SelectPhase::Clearing => 2,
        SelectPhase::Pausing => 3,
        SelectPhase::XdotoolCopying => 4,
        SelectPhase::KeyboardStarting => 5,
        SelectPhase::CtrlPressing => 6,
        SelectPhase::KeyClicking => 7,
        SelectPhase::CtrlReleasing => 8,
        SelectPhase::Waiting => 9,
        SelectPhase::Reading => 10,
        SelectPhase::Restoring => 11,
        SelectPhase::Finished => 12,
    }
}

/// A text injection only ever puts on the clipboard the text to inject, or,
/// after the paste, the clipboard text it saved at the start, and the latter
/// only when that text is not empty; the key it clicks is `v`.
pub proof fn law_injection_clipboard_writes(m: InjectModel, o: OutcomeModel)
    requires
        m.phase != InjectPhase::Finished,
    ensures
        ({
            let (n, step) = inject_next(m, o);
            &&& n.text == m.text
            &&& n.platform == m.platform
            &&& (step matches StepModel::Perform(e) ==> written_text(e) is Some ==> {
                ||| written_text(e) == Some(m.text)
                ||| (m.phase == InjectPhase::AfterPaste && written_text(e) == Some(m.saved) && m.saved.len() > 0)
            })
            &&& (step matches StepModel::Perform(EffectModel::Key(Keystroke::Click(c))) ==> c == 'v')
        }),
{
}

/// Each step of a text injection either finishes it or moves it to a later
/// phase, so that it finishes after at most twelve steps.
pub proof fn law_injection_progresses(m: InjectModel, o: OutcomeModel)
    requires
        m.phase != InjectPhase::Finished,
    ensures
        ({
            let (n, step) = inject_next(m, o);
            &&& inject_rank(n.phase) > inject_rank(m.phase)
            &&& (step is Finish <==> n.phase == InjectPhase::Finished)
        }),
{
}

/// A selection capture only succeeds with a text that is not empty.
pub proof fn law_selection_not_empty(m: SelectModel, o: OutcomeModel)
    requires
        m.phase != SelectPhase::Finished,
    ensures
        select_next(m, o).1 matches StepModel::Finish(Ok(s)) ==> s.len() > 0,
{
}

/// A selection capture only ever puts on the clipboard the empty text (to
/// clear it before the copy) or the clipboard text it saved at the start (to
/// put it back after the copy), the latter only when that text is not empty;
/// and the text it succeeds with is the one read after the copy.
pub proof fn law_selection_clipboard_writes(m: SelectModel, o: OutcomeModel)
    requires
        m.phase != SelectPhase::Finished,
    ensures
        ({
            let (n, step) = select_next(m, o);
            &&& n.platform == m.platform
            &&& (step matches StepModel::Perform(e) ==> written_text(e) is Some ==> {
                ||| written_text(e) == Some(Seq::<char>::empty())
                ||| (m.phase == SelectPhase::Reading && written_text(e) == Some(m.saved) && m.saved.len() > 0)
            })
            &&& (step matches StepModel::Perform(EffectModel::Key(Keystroke::Click(c))) ==> c == 'c')
            &&& (step matches StepModel::Finish(Ok(s)) ==> {
                ||| (m.phase == SelectPhase::Reading && s == read_text(m.platform, o))
                ||| (m.phase == SelectPhase::Restoring && s == m.selected)
            })
            &&& (m.phase == SelectPhase::Reading ==> n.selected == read_text(m.platform, o))
            &&& (m.phase != SelectPhase::Reading ==> n.selected == m.selected)
            &&& (m.phase != SelectPhase::SavingClipboard ==> n.saved == m.saved)
        }),
{
}

/// Each step of a selection capture either finishes it or moves it to a later
/// phase, so that it finishes after at most twelve steps.
pub proof fn law_selection_progresses(m: SelectModel, o: OutcomeModel)
    requires
        m.phase != SelectPhase::Finished,
    ensures
        ({
            let (n, step) = select_next(m, o);
            &&& select_rank(n.phase) > select_rank(m.phase)
            &&& (step is Finish <==> n.phase == SelectPhase::Finished)
        }),
{
}

/// On Linux a text injection never reads the clipboard (reading it can hang
/// under Wayland); it only writes it.
pub proof fn law_linux_injection_never_reads_clipboard(m: InjectModel, o: OutcomeModel)
    requires
        m.phase != InjectPhase::Finished,
        m.platform == Platform::Linux,
        m.phase != InjectPhase::SavingClipboard,
        m.phase != InjectPhase::BeforePaste,
        m.phase != InjectPhase::AfterPaste,
        m.phase != InjectPhase::Restoring,
    ensures
        ({
            let (n, step) = inject_next(m, o);
            &&& n.phase != InjectPhase::SavingClipboard
            &&& n.phase != InjectPhase::BeforePaste
            &&& n.phase != InjectPhase::AfterPaste
            &&& n.phase != InjectPhase::Restoring
            &&& !(step matches StepModel::Perform(EffectModel::ReadClipboard))
            &&& !(step matches StepModel::Perform(EffectModel::WlPaste))
        }),
{
}

/// On Linux a selection capture goes through `wl-paste`/`wl-copy` only and
/// never through the clipboard directly; elsewhere it never runs them.
pub proof fn law_selection_clipboard_channel(m: SelectModel, o: OutcomeModel)
    requires
        m.phase != SelectPhase::Finished,
    ensures
        ({
            let step = select_next(m, o).1;
            &&& (m.platform == Platform::Linux ==> !(step matches StepModel::Perform(EffectModel::ReadClipboard))
                && !(step matches StepModel::Perform(EffectModel::WriteClipboard(_))))
            &&& (m.platform == Platform::Other ==> !(step matches StepModel::Perform(EffectModel::WlPaste))
                && !(step matches StepModel::Perform(EffectModel::WlCopy(_)))
                && !(step matches StepModel::Perform(EffectModel::Xdotool(_))))
        }),
{
}

pub open spec fn failed(o: OutcomeModel) -> bool {
    o is Failed
}

/// A text injection only reports success once the text has been pasted: an
/// `Ok` finish follows either a successful `xdotool` Ctrl+V, or the release of
/// Ctrl that ends the simulated Ctrl+V, or (elsewhere) the wait and the
/// clipboard restore that come after that paste. In particular putting the
/// text on the clipboard never ends the flow with success.
pub proof fn law_injection_ok_only_after_paste(m: InjectModel, o: OutcomeModel)
    requires
        m.phase != InjectPhase::Finished,
    ensures
        inject_next(m, o).1 matches StepModel::Finish(Ok(_)) ==> {
            ||| (m.phase == InjectPhase::XdotoolPasting && succeeded(o))
            ||| (m.phase == InjectPhase::CtrlReleasing && !failed(o) && m.platform == Platform::Linux)
            ||| (m.phase == InjectPhase::AfterPaste && m.saved.len() == 0)
            ||| m.phase == InjectPhase::Restoring
        },
        // the paste phases are entered only by asking for the paste itself
        inject_next(m, o).0.phase == InjectPhase::XdotoolPasting
            ==> inject_next(m, o).1 == StepModel::<()>::Perform(EffectModel::Xdotool("ctrl+v"@)),
        inject_next(m, o).0.phase == InjectPhase::KeyClicking
            ==> inject_next(m, o).1 == StepModel::<()>::Perform(EffectModel::Key(Keystroke::Click('v')))
                && m.phase == InjectPhase::CtrlPressing,
        inject_next(m, o).0.phase == InjectPhase::CtrlReleasing
            ==> inject_next(m, o).1 == StepModel::<()>::Perform(EffectModel::Key(Keystroke::ReleaseControl))
                && m.phase == InjectPhase::KeyClicking && !failed(o),
        inject_next(m, o).0.phase == InjectPhase::AfterPaste ==> m.phase == InjectPhase::CtrlReleasing && !failed(o),
        inject_next(m, o).0.phase == InjectPhase::Restoring ==> m.phase == InjectPhase::AfterPaste,
{
}

/// On Linux, once the text is on the clipboard (by `wl-copy`, `xclip` or the
/// clipboard itself), the flow waits 100 ms and then presses Ctrl+V with
/// `xdotool`, whatever the wait reports.
pub proof fn law_linux_copy_then_paste(m: InjectModel, o: OutcomeModel, o2: OutcomeModel)
    requires
        m.platform == Platform::Linux,
        ({
            ||| ((m.phase == InjectPhase::WlCopying || m.phase == InjectPhase::XclipCopying) && succeeded(o))
            ||| (m.phase == InjectPhase::WritingClipboard && !(o is OpenFailed) && !failed(o))
        }),
    ensures
        inject_next(m, o).1 == StepModel::<()>::Perform(EffectModel::Sleep(100)),
        inject_next(inject_next(m, o).0, o2).1 == StepModel::<()>::Perform(EffectModel::Xdotool("ctrl+v"@)),
        inject_next(inject_next(m, o).0, o2).0.text == m.text,
{
}

/// When `xdotool` cannot paste, the keyboard simulator does: it is started,
/// then Ctrl is pressed, `v` clicked and Ctrl released, each after the
/// previous one succeeded.
pub proof fn law_injection_keyboard_fallback(
    m: InjectModel,
    o1: OutcomeModel,
    o2: OutcomeModel,
    o3: OutcomeModel,
    o4: OutcomeModel,
)
    requires
        m.phase == InjectPhase::XdotoolPasting,
        !succeeded(o1),
        !failed(o2),
        !failed(o3),
    ensures
        ({
            let (m1, s1) = inject_next(m, o1);
            let (m2, s2) = inject_next(m1, o2);
            let (m3, s3) = inject_next(m2, o3);
            let (m4, s4) = inject_next(m3, o4);
            &&& s1 == StepModel::<()>::Perform(EffectModel::StartKeyboard)
            &&& s2 == StepModel::<()>::Perform(EffectModel::Key(Keystroke::PressControl))
            &&& s3 == StepModel::<()>::Perform(EffectModel::Key(Keystroke::Click('v')))
            &&& s4 == (if failed(o4) {
                StepModel::<()>::Finish(Err("Failed to press V: "@ + o4->Failed_0))
            } else {
                StepModel::<()>::Perform(EffectModel::Key(Keystroke::ReleaseControl))
            })
        }),
{
}

/// In a selection capture the clipboard is read for the selection only
/// after a Ctrl+C: the wait before the read is entered only from a
/// successful `xdotool` Ctrl+C or from the release of Ctrl that ends the
/// simulated Ctrl+C, and the read only from that wait.
pub proof fn law_selection_reads_after_copy(m: SelectModel, o: OutcomeModel)
    requires
        m.phase != SelectPhase::Finished,
    ensures
        select_next(m, o).0.phase == SelectPhase::Waiting ==> {
            ||| (m.phase == SelectPhase::XdotoolCopying && succeeded(o))
            ||| (m.phase == SelectPhase::CtrlReleasing && !failed(o))
        },
        select_next(m, o).0.phase == SelectPhase::Reading ==> m.phase == SelectPhase::Waiting,
        select_next(m, o).0.phase == SelectPhase::CtrlReleasing
            ==> m.phase == SelectPhase::KeyClicking && !failed(o)
                && select_next(m, o).1 == StepModel::<Seq<char>>::Perform(EffectModel::Key(Keystroke::ReleaseControl)),
        select_next(m, o).0.phase == SelectPhase::KeyClicking
            ==> m.phase == SelectPhase::CtrlPressing
                && select_next(m, o).1 == StepModel::<Seq<char>>::Perform(EffectModel::Key(Keystroke::Click('c'))),
        select_next(m, o).0.phase == SelectPhase::XdotoolCopying
            ==> select_next(m, o).1 == StepModel::<Seq<char>>::Perform(EffectModel::Xdotool("ctrl+c"@)),
{
}

/// On Linux, when `xdotool` cannot copy, the keyboard simulator presses
/// Ctrl+C (start, Ctrl, `c`, release, each after the previous succeeded),
/// then the flow waits 150 ms and reads the selection with `wl-paste`.
pub proof fn law_selection_keyboard_fallback(
    m: SelectModel,
    o1: OutcomeModel,
    o2: OutcomeModel,
    o3: OutcomeModel,
    o4: OutcomeModel,
    o5: OutcomeModel,
    o6: OutcomeModel,
)
    requires
        m.phase == SelectPhase::XdotoolCopying,
        m.platform == Platform::Linux,
        !succeeded(o1),
        !failed(o2),
        !failed(o3),
        !failed(o4),
        !failed(o5),
    ensures
        ({
            let (m1, s1) = select_next(m, o1);
            let (m2, s2) = select_next(m1, o2);
            let (m3, s3) = select_next(m2, o3);
            let (m4, s4) = select_next(m3, o4);
            let (m5, s5) = select_next(m4, o5);
            let (m6, s6) = select_next(m5, o6);
            &&& s1 == StepModel::<Seq<char>>::Perform(EffectModel::StartKeyboard)
            &&& s2 == StepModel::<Seq<char>>::Perform(EffectModel::Key(Keystroke::PressControl))
            &&& s3 == StepModel::<Seq<char>>::Perform(EffectModel::Key(Keystroke::Click('c')))
            &&& s4 == StepModel::<Seq<char>>::Perform(EffectModel::Key(Keystroke::ReleaseControl))
            &&& s5 == StepModel::<Seq<char>>::Perform(EffectModel::Sleep(150))
            &&& s6 == StepModel::<Seq<char>>::Perform(EffectModel::WlPaste)
            &&& m6.saved == m.saved
        }),
{
}

} // verus!
