//! The requests made to the OpenAI API (chat completions for clean-up and
//! voice commands, transcriptions for dictation) and how their replies are
//! read.
use vstd::prelude::*;
use crate::settings::{AppConfig, texts};
use crate::text::{contains, join, prefixed};

verus! {

/// A chat completion to request: the key it is sent with and its two messages.
pub struct ChatPrompt {
    pub api_key: String,
    pub system_prompt: String,
    pub user_message: String,
}

/// A transcription to request: the key it is sent with and the optional
/// prompt that lists the user's vocabulary.
pub struct TranscriptionRequest {
    pub api_key: String,
    pub prompt: Option<String>,
}

pub open spec fn cleanup_prompt_head() -> Seq<char> {
    "You are a dictation assistant. Clean up the following raw speech transcript:\n- Fix grammar and punctuation\n- Remove filler words (um, uh, like, you know)\n- Maintain the speaker's intent and meaning\n- Do NOT add information that wasn't spoken\n- Match the appropriate tone for the context: "@
}

pub open spec fn cleanup_prompt_tail() -> Seq<char> {
    "\n- Return ONLY the cleaned text, nothing else"@
}

/// The system prompt for cleaning up a transcript written in `context`.
pub open spec fn cleanup_prompt(context: Seq<char>) -> Seq<char> {
    cleanup_prompt_head() + context + cleanup_prompt_tail()
}

/// The system prompt for a voice command.
pub open spec fn command_prompt() -> Seq<char> {
    "You are a text transformation assistant. The user has selected some text and given a voice command describing how to transform it.\nApply the requested transformation to the selected text.\nReturn ONLY the transformed text, nothing else.\nDo not add explanations or commentary."@
}

/// The user message for a voice command on a selected text.
pub open spec fn command_message(selected: Seq<char>, command: Seq<char>) -> Seq<char> {
    "Selected text:\n"@ + selected + "\n\nCommand: "@ + command
}

/// The system prompt for cleaning up a transcript written in `context`.
pub fn cleanup_system_prompt(context: &str) -> (r: String)
    ensures
        r@ == cleanup_prompt(context@),
{
    let mut s = String::from_str(
        "You are a dictation assistant. Clean up the following raw speech transcript:\n- Fix grammar and punctuation\n- Remove filler words (um, uh, like, you know)\n- Maintain the speaker's intent and meaning\n- Do NOT add information that wasn't spoken\n- Match the appropriate tone for the context: ",
    );
    s.append(context);
    s.append("\n- Return ONLY the cleaned text, nothing else");
    s
}

/// The system prompt for a voice command.
pub fn command_system_prompt() -> (r: String)
    ensures
        r@ == command_prompt(),
{
    String::from_str(
        "You are a text transformation assistant. The user has selected some text and given a voice command describing how to transform it.\nApply the requested transformation to the selected text.\nReturn ONLY the transformed text, nothing else.\nDo not add explanations or commentary.",
    )
}

/// The user message for a voice command on a selected text.
pub fn command_user_message(selected_text: &str, voice_command: &str) -> (r: String)
    ensures
        r@ == command_message(selected_text@, voice_command@),
{
    let mut s = String::from_str("Selected text:\n");
    s.append(selected_text);
    s.append("\n\nCommand: ");
    s.append(voice_command);
    s
}

pub open spec fn missing_key_error() -> Seq<char> {
    "OpenAI API key not configured"@
}

pub open spec fn missing_key_for_transcription() -> Seq<char> {
    "OpenAI API key not configured. Please set it in Settings."@
}

/// The clean-up of `raw_text` written in `context`, or an error when no API
/// key is configured.
pub fn cleanup_request(config: &AppConfig, raw_text: &str, context: &str) -> (r: Result<ChatPrompt, String>)
    ensures
        config.openai_api_key@.len() == 0 ==> (r matches Err(e) && e@ == missing_key_error()),
        config.openai_api_key@.len() > 0 ==> (r matches Ok(p) && p.api_key@ == config.openai_api_key@
            && p.system_prompt@ == cleanup_prompt(context@) && p.user_message@ == raw_text@),
{
    if config.openai_api_key.as_str().is_empty() {
        return Err(String::from_str("OpenAI API key not configured"));
    }
    Ok(ChatPrompt {
        api_key: config.openai_api_key.clone(),
        system_prompt: cleanup_system_prompt(context),
        user_message: String::from_str(raw_text),
    })
}

/// The voice command `command` on `selected_text`, or an error when no API
/// key is configured.
pub fn voice_command_request(config: &AppConfig, selected_text: &str, command: &str) -> (r: Result<ChatPrompt, String>)
    ensures
        config.openai_api_key@.len() == 0 ==> (r matches Err(e) && e@ == missing_key_error()),
        config.openai_api_key@.len() > 0 ==> (r matches Ok(p) && p.api_key@ == config.openai_api_key@
            && p.system_prompt@ == command_prompt() && p.user_message@ == command_message(selected_text@, command@)),
{
    if config.openai_api_key.as_str().is_empty() {
        return Err(String::from_str("OpenAI API key not configured"));
    }
    Ok(ChatPrompt {
        api_key: config.openai_api_key.clone(),
        system_prompt: command_system_prompt(),
        user_message: command_user_message(selected_text, command),
    })
}

/// `items` joined with `sep` between neighbours.
pub fn join_texts(items: &Vec<String>, sep: &str) -> (r: String)
    ensures
        r@ == join(texts(items@), sep@),
{
    let mut r = String::new();
    let mut i: usize = 0;
    while i < items.len()
        invariant
            i <= items@.len(),
            r@ == join(texts(items@).take(i as int), sep@),
        decreases items@.len() - i,
    {
        let ghost prefix = texts(items@).take(i + 1);
        assert(prefix.drop_last() =~= texts(items@).take(i as int));
        if i > 0 {
            r.append(sep);
        } else {
            assert(texts(items@).take(0) =~= Seq::<Seq<char>>::empty());
        }
        r.append(items[i].as_str());
        i = i + 1;
    }
    assert(texts(items@).take(i as int) =~= texts(items@));
    r
}

/// The vocabulary prompt of a transcription: the dictionary's words joined
/// by `, `, or none for an empty dictionary.
pub open spec fn vocabulary_prompt(dictionary: Seq<Seq<char>>) -> Option<Seq<char>> {
    if dictionary.len() == 0 {
        None
    } else {
        Some(join(dictionary, ", "@))
    }
}

/// The transcription of a recording, or an error when no API key is configured.
pub fn transcription_request(config: &AppConfig) -> (r: Result<TranscriptionRequest, String>)
    ensures
        config.openai_api_key@.len() == 0 ==> (r matches Err(e) && e@ == missing_key_for_transcription()),
        config.openai_api_key@.len() > 0 ==> (r matches Ok(t) && t.api_key@ == config.openai_api_key@
            && match t.prompt {
                Some(p) => vocabulary_prompt(texts(config.personal_dictionary@)) == Some(p@),
                None => vocabulary_prompt(texts(config.personal_dictionary@)) is None,
            }),
{
    if config.openai_api_key.as_str().is_empty() {
        return Err(String::from_str("OpenAI API key not configured. Please set it in Settings."));
    }
    let prompt = if config.personal_dictionary.len() == 0 {
        None
    } else {
        Some(join_texts(&config.personal_dictionary, ", "))
    };
    Ok(TranscriptionRequest { api_key: config.openai_api_key.clone(), prompt })
}

/// The `Authorization` header value for `api_key`.
pub fn bearer(api_key: &str) -> (r: String)
    ensures
        r@ == "Bearer "@ + api_key@,
{
    prefixed("Bearer ", api_key)
}

/// The text fields of a transcription form besides the audio file: the
/// model, the response format and, when there is one, the prompt.
pub open spec fn form_fields(prompt: Option<Seq<char>>) -> Seq<(Seq<char>, Seq<char>)> {
    let base = seq![("model"@, "whisper-1"@), ("response_format"@, "json"@)];
    match prompt {
        Some(p) => base.push(("prompt"@, p)),
        None => base,
    }
}

pub open spec fn pairs_view(v: Seq<(String, String)>) -> Seq<(Seq<char>, Seq<char>)> {
    v.map_values(|p: (String, String)| (p.0@, p.1@))
}

/// The text fields of a transcription form.
pub fn transcription_fields(prompt: Option<&str>) -> (r: Vec<(String, String)>)
    ensures
        pairs_view(r@) == form_fields(match prompt {
            Some(p) => Some(p@),
            None => None,
        }),
{
    let mut v: Vec<(String, String)> = Vec::new();
    v.push((String::from_str("model"), String::from_str("whisper-1")));
    v.push((String::from_str("response_format"), String::from_str("json")));
    match prompt {
        Some(p) => {
            v.push((String::from_str("prompt"), String::from_str(p)));
        },
        None => {},
    }
    assert(pairs_view(v@) =~= form_fields(match prompt {
        Some(p) => Some(p@),
        None => None,
    }));
    v
}

/// Which of the two APIs a reply comes from.
#[derive(Clone, Copy, PartialEq, Eq, Structural, Debug)]
pub enum Api {
    Gpt,
    Whisper,
}

pub open spec fn api_name(api: Api) -> Seq<char> {
    match api {
        Api::Gpt => "GPT"@,
        Api::Whisper => "Whisper"@,
    }
}

fn api_name_of(api: Api) -> (r: &'static str)
    ensures
        r@ == api_name(api),
{
    match api {
        Api::Gpt => "GPT",
        Api::Whisper => "Whisper",
    }
}

/// Whether an HTTP status code reports success (200 to 299).
pub open spec fn is_success_code(code: u16) -> bool {
    200 <= code && code < 300
}

/// `reqwest::StatusCode::is_success` on the status `code`: true exactly for
/// 200 to 299 (a code that `StatusCode::from_u16` refuses is no success).
#[verifier::external_body]
fn status_is_success(code: u16) -> (r: bool)
    ensures
        r == is_success_code(code),
{
    match reqwest::StatusCode::from_u16(code) {
        Ok(status) => status.is_success(),
        Err(_) => false,
    }
}

/// The reason phrase that `StatusCode::canonical_reason` gives for `code`
/// (`None` for a code without one, or one that `from_u16` refuses).
pub uninterp spec fn canonical_reason(code: u16) -> Option<Seq<char>>;

/// `reqwest::StatusCode::canonical_reason` for `code`; its table is not
/// restated here, the result is named `canonical_reason`.
#[verifier::external_body]
fn status_reason(code: u16) -> (r: Option<String>)
    ensures
        match r {
            Some(s) => canonical_reason(code) == Some(s@),
            None => canonical_reason(code) is None,
        },
{
    match reqwest::StatusCode::from_u16(code) {
        Ok(status) => status.canonical_reason().map(|s| s.to_string()),
        Err(_) => None,
    }
}

/// The decimal digits of `n`.
pub open spec fn decimal(n: nat) -> Seq<char>
    decreases n,
{
    if n < 10 {
        seq![digit_char(n)]
    } else {
        decimal(n / 10).push(digit_char(n % 10))
    }
}

pub open spec fn digit_char(d: nat) -> char {
    if d == 0 { '0' } else if d == 1 { '1' } else if d == 2 { '2' } else if d == 3 { '3' }
    else if d == 4 { '4' } else if d == 5 { '5' } else if d == 6 { '6' } else if d == 7 { '7' }
    else if d == 8 { '8' } else { '9' }
}

/// The one-digit text of `d`.
fn digit_text(d: u16) -> (r: String)
    requires
        d < 10,
    ensures
        r@ == seq![digit_char(d as nat)],
{
    proof {
        reveal_strlit("0");
        reveal_strlit("1");
        reveal_strlit("2");
        reveal_strlit("3");
        reveal_strlit("4");
        reveal_strlit("5");
        reveal_strlit("6");
        reveal_strlit("7");
        reveal_strlit("8");
        reveal_strlit("9");
    }
    let s: &str = if d == 0 { "0" } else if d == 1 { "1" } else if d == 2 { "2" }
        else if d == 3 { "3" } else if d == 4 { "4" } else if d == 5 { "5" }
        else if d == 6 { "6" } else if d == 7 { "7" } else if d == 8 { "8" } else { "9" };
    assert(s@ =~= seq![digit_char(d as nat)]);
    String::from_str(s)
}

/// The decimal digits of `n`.
pub fn decimal_text(n: u16) -> (r: String)
    ensures
        r@ == decimal(n as nat),
    decreases n,
{
    if n < 10 {
        digit_text(n)
    } else {
        let mut s = decimal_text(n / 10);
        let t = digit_text(n % 10);
        s.append(t.as_str());
        assert(s@ =~= decimal((n / 10) as nat).push(digit_char((n % 10) as nat)));
        s
    }
}

/// How `reqwest::StatusCode` displays the status `code`: its number and its
/// reason phrase.
pub open spec fn status_line(code: u16) -> Seq<char> {
    decimal(code as nat) + " "@ + match canonical_reason(code) {
        Some(r) => r,
        None => "<unknown status code>"@,
    }
}

/// How `reqwest::StatusCode` displays the status `code`.
pub fn status_text(code: u16) -> (r: String)
    ensures
        r@ == status_line(code),
{
    let mut s = decimal_text(code);
    s.append(" ");
    match status_reason(code) {
        Some(reason) => s.append(reason.as_str()),
        None => s.append("<unknown status code>"),
    }
    s
}

/// What to do once a request has been sent.
pub enum SendVerdict {
    /// The call failed with this error.
    Failed(String),
    /// The status is an error: read the body and report it with `api_error`.
    ReadErrorBody(u16),
    /// The status is a success: read and parse the payload.
    ReadPayload,
}

/// What an API call does after sending: a failed send ends it with
/// `<API> API request failed: <error>`, an error status has its body read,
/// a success has its payload parsed.
pub fn after_send(api: Api, sent: Result<u16, String>) -> (r: SendVerdict)
    ensures
        match sent {
            Err(e) => r matches SendVerdict::Failed(m) && m@ == api_name(api) + " API request failed: "@ + e@,
            Ok(code) => if is_success_code(code) { r is ReadPayload } else { r == SendVerdict::ReadErrorBody(code) },
        },
{
    match sent {
        Err(e) => {
            let mut m = String::from_str(api_name_of(api));
            m.append(" API request failed: ");
            m.append(e.as_str());
            SendVerdict::Failed(m)
        },
        Ok(code) => if status_is_success(code) {
            SendVerdict::ReadPayload
        } else {
            SendVerdict::ReadErrorBody(code)
        },
    }
}

/// The error of a call answered with the error status `code` and `body`.
pub fn api_error(api: Api, code: u16, body: &str) -> (r: String)
    ensures
        r@ == api_name(api) + " API error ("@ + status_line(code) + "): "@ + body@,
{
    let mut m = String::from_str(api_name_of(api));
    m.append(" API error (");
    let status = status_text(code);
    m.append(status.as_str());
    m.append("): ");
    m.append(body);
    m
}

/// The error of a payload that could not be parsed.
pub fn parse_error(api: Api, e: &str) -> (r: String)
    ensures
        r@ == "Failed to parse "@ + api_name(api) + " response: "@ + e@,
{
    let mut m = String::from_str("Failed to parse ");
    m.append(api_name_of(api));
    m.append(" response: ");
    m.append(e);
    m
}

/// The answer of a chat completion: the content of its first choice, or
/// `No response from GPT` when it has none.
pub fn first_choice(contents: Vec<String>) -> (r: Result<String, String>)
    ensures
        contents@.len() > 0 ==> (r matches Ok(c) && c@ == contents@[0]@),
        contents@.len() == 0 ==> (r matches Err(e) && e@ == "No response from GPT"@),
{
    if contents.len() == 0 {
        Err(String::from_str("No response from GPT"))
    } else {
        Ok(contents[0].clone())
    }
}

/// The model that clean-ups and voice commands are sent to.
pub fn chat_model() -> (r: String)
    ensures
        r@ == "gpt-4o-mini"@,
{
    String::from_str("gpt-4o-mini")
}

/// The chat completions endpoint.
pub fn chat_completions_url() -> (r: String)
    ensures
        r@ == "https://api.openai.com/v1/chat/completions"@,
{
    String::from_str("https://api.openai.com/v1/chat/completions")
}

/// The transcriptions endpoint.
pub fn transcriptions_url() -> (r: String)
    ensures
        r@ == "https://api.openai.com/v1/audio/transcriptions"@,
{
    String::from_str("https://api.openai.com/v1/audio/transcriptions")
}

/// The file name and MIME type that a recording is uploaded under.
pub fn audio_upload() -> (r: (String, String))
    ensures
        r.0@ == "audio.wav"@,
        r.1@ == "audio/wav"@,
{
    (String::from_str("audio.wav"), String::from_str("audio/wav"))
}

/// The messages of a chat completion, as (role, content) pairs: the system
/// prompt, then the user message.
pub fn chat_messages(prompt: &ChatPrompt) -> (r: Vec<(String, String)>)
    ensures
        pairs_view(r@) == seq![("system"@, prompt.system_prompt@), ("user"@, prompt.user_message@)],
{
    let v = vec![
        (String::from_str("system"), prompt.system_prompt.clone()),
        (String::from_str("user"), prompt.user_message.clone()),
    ];
    assert(pairs_view(v@) =~= seq![("system"@, prompt.system_prompt@), ("user"@, prompt.user_message@)]);
    v
}

proof fn lemma_contains_extend(a: Seq<char>, b: Seq<char>, w: Seq<char>)
    ensures
        contains(a, w) ==> contains(a + b, w),
        contains(b, w) ==> contains(a + b, w),
{
    if contains(a, w) {
        let i = choose|i: int| 0 <= i && i + w.len() <= a.len() && #[trigger] a.subrange(i, i + w.len()) == w;
        assert((a + b).subrange(i, i + w.len()) =~= a.subrange(i, i + w.len()));
    }
    if contains(b, w) {
        let i = choose|i: int| 0 <= i && i + w.len() <= b.len() && #[trigger] b.subrange(i, i + w.len()) == w;
        assert((a + b).subrange(a.len() + i, a.len() + i + w.len()) =~= b.subrange(i, i + w.len()));
    }
}

proof fn lemma_join_holds_items(items: Seq<Seq<char>>, sep: Seq<char>)
    ensures
        forall|k: int| 0 <= k < items.len() ==> contains(join(items, sep), #[trigger] items[k]),
    decreases items.len(),
{
    if items.len() == 1 {
        assert(items[0].subrange(0int, 0int + items[0].len()) =~= items[0]);
    } else if items.len() > 1 {
        let init = items.drop_last();
        lemma_join_holds_items(init, sep);
        assert forall|k: int| 0 <= k < items.len() implies contains(join(items, sep), #[trigger] items[k]) by {
            let last = items.last();
            lemma_contains_extend(join(init, sep) + sep, last, items[k]);
            lemma_contains_extend(join(init, sep), sep, items[k]);
            assert(join(items, sep) == join(init, sep) + sep + last);
            if k < items.len() - 1 {
                assert(items[k] == init[k]);
                assert(contains(join(init, sep), init[k]));
            } else {
                assert(last.subrange(0int, 0int + last.len()) =~= last);
            }
        }
    }
}

/// The vocabulary prompt is sent for every dictionary that has a word, and
/// only then: one word gives that word, two give them separated by `, `,
/// and every word of the dictionary occurs in the prompt.
pub proof fn law_vocabulary_prompt(dictionary: Seq<Seq<char>>)
    ensures
        vocabulary_prompt(dictionary) is None <==> dictionary.len() == 0,
        dictionary.len() == 1 ==> vocabulary_prompt(dictionary) == Some(dictionary[0]),
        dictionary.len() == 2 ==> vocabulary_prompt(dictionary) == Some(dictionary[0] + ", "@ + dictionary[1]),
        vocabulary_prompt(dictionary) matches Some(p) ==> forall|k: int|
            0 <= k < dictionary.len() ==> contains(p, #[trigger] dictionary[k]),
{
    if dictionary.len() == 2 {
        assert(dictionary.drop_last().len() == 1);
        assert(join(dictionary.drop_last(), ", "@) == dictionary[0]);
    }
    lemma_join_holds_items(dictionary, ", "@);
}

} // verus!
