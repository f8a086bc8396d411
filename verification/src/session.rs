//! The effects that text injection and selection capture ask the host to
//! perform, and what the host reports back. The flows themselves are the
//! state machines of `inject`.
use vstd::prelude::*;

verus! {

/// The desktop family the flows are run on: Linux goes through the
/// `wl-copy`/`wl-paste`/`xclip`/`xdotool` tools first, elsewhere the
/// clipboard is used directly.
#[derive(Clone, Copy, PartialEq, Eq, Structural, Debug)]
pub enum Platform {
    Linux,
    Other,
}

/// A simulated key event.
#[derive(Clone, Copy, PartialEq, Eq, Structural, Debug)]
pub enum Keystroke {
    PressControl,
    ReleaseControl,
    Click(char),
}

/// Something the host does for a flow.
#[derive(Debug)]
pub enum Effect {
    /// Run `wl-copy <text>`; report `Exited`.
    WlCopy(String),
    /// Run `xclip -selection clipboard` with the text on its standard input; report `Exited`.
    XclipCopy(String),
    /// Run `wl-paste --no-newline`; report `Captured`.
    WlPaste,
    /// Run `xdotool key --clearmodifiers <keys>`; report `Exited`.
    Xdotool(String),
    /// Wait that many milliseconds; report `Done`.
    Sleep(u64),
    /// Read the clipboard text; report `Text`, or `Failed`.
    ReadClipboard,
    /// Put the text on the clipboard; report `Done`, or `OpenFailed` when the
    /// clipboard cannot be opened, or `Failed` when the write fails.
    WriteClipboard(String),
    /// Open the keyboard simulator; report `Done` or `Failed`.
    StartKeyboard,
    /// Send a key event through the keyboard simulator; report `Done` or `Failed`.
    Key(Keystroke),
}

/// What the host reports after performing an effect (`Start` before the first one).
#[derive(Debug)]
pub enum Outcome {
    Start,
    /// The command ran to its end (`true` for a successful exit status);
    /// `false` also when it could not be started.
    Exited(bool),
    /// The command's exit status was success (`true`), and its output when it
    /// could be read and is UTF-8.
    Captured(bool, Option<String>),
    Done,
    Text(String),
    Failed(String),
    OpenFailed(String),
}

/// The next move of a flow: an effect to perform, or the flow's result.
#[derive(Debug)]
pub enum Step<T> {
    Perform(Effect),
    Finish(Result<T, String>),
}

pub enum EffectModel {
    WlCopy(Seq<char>),
    XclipCopy(Seq<char>),
    WlPaste,
    Xdotool(Seq<char>),
    Sleep(u64),
    ReadClipboard,
    WriteClipboard(Seq<char>),
    StartKeyboard,
    Key(Keystroke),
}

pub enum OutcomeModel {
    Start,
    Exited(bool),
    Captured(bool, Option<Seq<char>>),
    Done,
    Text(Seq<char>),
    Failed(Seq<char>),
    OpenFailed(Seq<char>),
}

pub enum StepModel<T> {
    Perform(EffectModel),
    Finish(Result<T, Seq<char>>),
}

impl View for Effect {
    type V = EffectModel;

    open spec fn view(&self) -> EffectModel {
        match self {
            Effect::WlCopy(t) => EffectModel::WlCopy(t@),
            Effect::XclipCopy(t) => EffectModel::XclipCopy(t@),
            Effect::WlPaste => EffectModel::WlPaste,
            Effect::Xdotool(k) => EffectModel::Xdotool(k@),
            Effect::Sleep(ms) => EffectModel::Sleep(*ms),
            Effect::ReadClipboard => EffectModel::ReadClipboard,
            Effect::WriteClipboard(t) => EffectModel::WriteClipboard(t@),
            Effect::StartKeyboard => EffectModel::StartKeyboard,
            Effect::Key(k) => EffectModel::Key(*k),
        }
    }
}

impl View for Outcome {
    type V = OutcomeModel;

    open spec fn view(&self) -> OutcomeModel {
        match self {
            Outcome::Start => OutcomeModel::Start,
            Outcome::Exited(b) => OutcomeModel::Exited(*b),
            Outcome::Captured(b, t) => OutcomeModel::Captured(
                *b,
                match t {
                    Some(s) => Some(s@),
                    None => None,
                },
            ),
            Outcome::Done => OutcomeModel::Done,
            Outcome::Text(t) => OutcomeModel::Text(t@),
            Outcome::Failed(e) => OutcomeModel::Failed(e@),
            Outcome::OpenFailed(e) => OutcomeModel::OpenFailed(e@),
        }
    }
}

impl<T: View> View for Step<T> {
    type V = StepModel<T::V>;

    open spec fn view(&self) -> StepModel<T::V> {
        match self {
            Step::Perform(e) => StepModel::Perform(e@),
            Step::Finish(Ok(t)) => StepModel::Finish(Ok(t@)),
            Step::Finish(Err(e)) => StepModel::Finish(Err(e@)),
        }
    }
}

/// The command line (program and arguments) that the host runs for a
/// command effect; `None` for the effects that run no command.
pub open spec fn command_of(e: EffectModel) -> Option<(Seq<char>, Seq<Seq<char>>)> {
    match e {
        EffectModel::WlCopy(t) => Some(("wl-copy"@, seq![t])),
        EffectModel::XclipCopy(_) => Some(("xclip"@, seq!["-selection"@, "clipboard"@])),
        EffectModel::WlPaste => Some(("wl-paste"@, seq!["--no-newline"@])),
        EffectModel::Xdotool(k) => Some(("xdotool"@, seq!["key"@, "--clearmodifiers"@, k])),
        _ => None,
    }
}

pub open spec fn argv_view(args: Seq<String>) -> Seq<Seq<char>> {
    args.map_values(|a: String| a@)
}

/// The command line that the host runs for `effect`.
pub fn command_line(effect: &Effect) -> (r: Option<(String, Vec<String>)>)
    ensures
        match r {
            Some((p, args)) => command_of(effect@) == Some((p@, argv_view(args@))),
            None => command_of(effect@) is None,
        },
{
    match effect {
        Effect::WlCopy(t) => {
            let args = vec![t.clone()];
            assert(argv_view(args@) =~= seq![t@]);
            Some((String::from_str("wl-copy"), args))
        },
        Effect::XclipCopy(_) => {
            let args = vec![String::from_str("-selection"), String::from_str("clipboard")];
            assert(argv_view(args@) =~= seq!["-selection"@, "clipboard"@]);
            Some((String::from_str("xclip"), args))
        },
        Effect::WlPaste => {
            let args = vec![String::from_str("--no-newline")];
            assert(argv_view(args@) =~= seq!["--no-newline"@]);
            Some((String::from_str("wl-paste"), args))
        },
        Effect::Xdotool(k) => {
            let args = vec![String::from_str("key"), String::from_str("--clearmodifiers"), k.clone()];
            assert(argv_view(args@) =~= seq!["key"@, "--clearmodifiers"@, k@]);
            Some((String::from_str("xdotool"), args))
        },
        _ => None,
    }
}

} // verus!
