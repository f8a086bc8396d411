//! The active window and the writing context it suggests, which sets the
//! tone asked of the transcript clean-up.
use vstd::prelude::*;
use crate::text::{chars_of, contains, has_infix};

verus! {

/// The focused window.
pub struct WindowInfo {
    pub title: String,
    pub process_name: String,
}

/// The focused window and the context description derived from it.
pub struct ContextInfo {
    pub window_title: String,
    pub process_name: String,
    pub context_description: String,
}

/// The result of `str::to_lowercase` on `s`.
pub uninterp spec fn lowercase(s: Seq<char>) -> Seq<char>;

/// `str::to_lowercase`: the Unicode lowercase mapping of `s`. What the
/// mapping gives is not spelled out here; the result is named `lowercase`.
#[verifier::external_body]
fn to_lowercase(s: &str) -> (r: String)
    ensures
        r@ == lowercase(s@),
{
    s.to_lowercase()
}

pub open spec fn chat_description() -> Seq<char> {
    "casual chat/messaging — use informal, conversational tone"@
}

pub open spec fn email_description() -> Seq<char> {
    "email — use professional, polished tone with proper salutations"@
}

pub open spec fn code_description() -> Seq<char> {
    "code editor — use technical, precise language; preserve code terminology"@
}

pub open spec fn document_description() -> Seq<char> {
    "document editor — use clear, well-structured prose"@
}

pub open spec fn terminal_description() -> Seq<char> {
    "terminal — use concise, technical language"@
}

pub open spec fn general_description() -> Seq<char> {
    "general text input — use clear, neutral tone"@
}

/// The context that a window suggests, from its lowercased process name and
/// title, the first rule that applies winning: messaging apps, mail, code
/// editors, document editors, terminals, else general input.
pub open spec fn context_description(process: Seq<char>, title: Seq<char>) -> Seq<char> {
    if contains(process, "slack"@) || contains(process, "discord"@) || contains(process, "telegram"@)
        || contains(process, "whatsapp"@) || contains(title, "slack"@) || contains(title, "discord"@) {
        chat_description()
    } else if contains(process, "outlook"@) || contains(process, "thunderbird"@)
        || contains(process, "gmail"@) || contains(title, "mail"@) || contains(title, "email"@)
        || contains(title, "compose"@) {
        email_description()
    } else if contains(process, "code"@) || contains(process, "vim"@) || contains(process, "emacs"@)
        || contains(process, "sublime"@) || contains(process, "idea"@) || contains(process, "studio"@) {
        code_description()
    } else if contains(process, "docs"@) || contains(process, "word"@) || contains(process, "notion"@)
        || contains(process, "libreoffice"@) {
        document_description()
    } else if contains(process, "terminal"@) || contains(process, "konsole"@)
        || contains(process, "alacritty"@) || contains(process, "kitty"@) {
        terminal_description()
    } else {
        general_description()
    }
}

fn has(v: &Vec<char>, word: &str) -> (r: bool)
    ensures
        r == contains(v@, word@),
{
    has_infix(v, &chars_of(word))
}

/// The context description for an already lowercased process name and title.
pub fn classify_lowercased(process: &str, title: &str) -> (r: String)
    ensures
        r@ == context_description(process@, title@),
{
    let p = chars_of(process);
    let t = chars_of(title);
    if has(&p, "slack") || has(&p, "discord") || has(&p, "telegram") || has(&p, "whatsapp")
        || has(&t, "slack") || has(&t, "discord") {
        String::from_str("casual chat/messaging — use informal, conversational tone")
    } else if has(&p, "outlook") || has(&p, "thunderbird") || has(&p, "gmail") || has(&t, "mail")
        || has(&t, "email") || has(&t, "compose") {
        String::from_str("email — use professional, polished tone with proper salutations")
    } else if has(&p, "code") || has(&p, "vim") || has(&p, "emacs") || has(&p, "sublime")
        || has(&p, "idea") || has(&p, "studio") {
        String::from_str("code editor — use technical, precise language; preserve code terminology")
    } else if has(&p, "docs") || has(&p, "word") || has(&p, "notion") || has(&p, "libreoffice") {
        String::from_str("document editor — use clear, well-structured prose")
    } else if has(&p, "terminal") || has(&p, "konsole") || has(&p, "alacritty") || has(&p, "kitty") {
        String::from_str("terminal — use concise, technical language")
    } else {
        String::from_str("general text input — use clear, neutral tone")
    }
}

/// Classify the active window context for GPT tone matching.
pub fn classify_context(info: &WindowInfo) -> (r: String)
    ensures
        r@ == context_description(lowercase(info.process_name@), lowercase(info.title@)),
{
    let process = to_lowercase(info.process_name.as_str());
    let title = to_lowercase(info.title.as_str());
    classify_lowercased(process.as_str(), title.as_str())
}

/// The context of the focused window, or an error when it could not be
/// detected.
pub fn context_from_window(window: Option<WindowInfo>) -> (r: Result<ContextInfo, String>)
    ensures
        match window {
            Some(info) => r matches Ok(c) && c.window_title@ == info.title@
                && c.process_name@ == info.process_name@
                && c.context_description@ == context_description(lowercase(info.process_name@), lowercase(info.title@)),
            None => r matches Err(e) && e@ == "Could not detect active window"@,
        },
{
    match window {
        Some(info) => {
            let context = classify_context(&info);
            Ok(ContextInfo { window_title: info.title, process_name: info.process_name, context_description: context })
        },
        None => Err(String::from_str("Could not detect active window")),
    }
}

/// Each keyword of each rule selects its context unless an earlier rule
/// applies; a window that matches no keyword gets the general context.
pub proof fn law_context_keywords(process: Seq<char>, title: Seq<char>)
    ensures
        // messaging apps, by process name or title
        (contains(process, "slack"@) || contains(process, "discord"@) || contains(process, "telegram"@)
            || contains(process, "whatsapp"@) || contains(title, "slack"@) || contains(title, "discord"@))
            ==> context_description(process, title) == "casual chat/messaging — use informal, conversational tone"@,
        // mail, by process name or title
        !(contains(process, "slack"@) || contains(process, "discord"@) || contains(process, "telegram"@)
            || contains(process, "whatsapp"@) || contains(title, "slack"@) || contains(title, "discord"@))
            && (contains(process, "outlook"@) || contains(process, "thunderbird"@) || contains(process, "gmail"@)
                || contains(title, "mail"@) || contains(title, "email"@) || contains(title, "compose"@))
            ==> context_description(process, title) == "email — use professional, polished tone with proper salutations"@,
        // code editors, by process name
        !(contains(process, "slack"@) || contains(process, "discord"@) || contains(process, "telegram"@)
            || contains(process, "whatsapp"@) || contains(title, "slack"@) || contains(title, "discord"@))
            && !(contains(process, "outlook"@) || contains(process, "thunderbird"@) || contains(process, "gmail"@)
                || contains(title, "mail"@) || contains(title, "email"@) || contains(title, "compose"@))
            && (contains(process, "code"@) || contains(process, "vim"@) || contains(process, "emacs"@)
                || contains(process, "sublime"@) || contains(process, "idea"@) || contains(process, "studio"@))
            ==> context_description(process, title) == "code editor — use technical, precise language; preserve code terminology"@,
        // document editors, by process name
        !(contains(process, "slack"@) || contains(process, "discord"@) || contains(process, "telegram"@)
            || contains(process, "whatsapp"@) || contains(title, "slack"@) || contains(title, "discord"@))
            && !(contains(process, "outlook"@) || contains(process, "thunderbird"@) || contains(process, "gmail"@)
                || contains(title, "mail"@) || contains(title, "email"@) || contains(title, "compose"@))
            && !(contains(process, "code"@) || contains(process, "vim"@) || contains(process, "emacs"@)
                || contains(process, "sublime"@) || contains(process, "idea"@) || contains(process, "studio"@))
            && (contains(process, "docs"@) || contains(process, "word"@) || contains(process, "notion"@)
                || contains(process, "libreoffice"@))
            ==> context_description(process, title) == "document editor — use clear, well-structured prose"@,
        // terminals, by process name
        !(contains(process, "slack"@) || contains(process, "discord"@) || contains(process, "telegram"@)
            || contains(process, "whatsapp"@) || contains(title, "slack"@) || contains(title, "discord"@))
            && !(contains(process, "outlook"@) || contains(process, "thunderbird"@) || contains(process, "gmail"@)
                || contains(title, "mail"@) || contains(title, "email"@) || contains(title, "compose"@))
            && !(contains(process, "code"@) || contains(process, "vim"@) || contains(process, "emacs"@)
                || contains(process, "sublime"@) || contains(process, "idea"@) || contains(process, "studio"@))
            && !(contains(process, "docs"@) || contains(process, "word"@) || contains(process, "notion"@)
                || contains(process, "libreoffice"@))
            && (contains(process, "terminal"@) || contains(process, "konsole"@) || contains(process, "alacritty"@)
                || contains(process, "kitty"@))
            ==> context_description(process, title) == "terminal — use concise, technical language"@,
        // anything else
        !(contains(process, "slack"@) || contains(process, "discord"@) || contains(process, "telegram"@)
            || contains(process, "whatsapp"@) || contains(title, "slack"@) || contains(title, "discord"@))
            && !(contains(process, "outlook"@) || contains(process, "thunderbird"@) || contains(process, "gmail"@)
                || contains(title, "mail"@) || contains(title, "email"@) || contains(title, "compose"@))
            && !(contains(process, "code"@) || contains(process, "vim"@) || contains(process, "emacs"@)
                || contains(process, "sublime"@) || contains(process, "idea"@) || contains(process, "studio"@))
            && !(contains(process, "docs"@) || contains(process, "word"@) || contains(process, "notion"@)
                || contains(process, "libreoffice"@))
            && !(contains(process, "terminal"@) || contains(process, "konsole"@) || contains(process, "alacritty"@)
                || contains(process, "kitty"@))
            ==> context_description(process, title) == "general text input — use clear, neutral tone"@,
{
}

} // verus!
