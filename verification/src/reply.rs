//! Answering a question: the steps from search to reply, the Telegram API
//! endpoints they use, and the streaming of the answer by message edits.
//!
//! Searching, calling the model, sending and editing messages, and pausing
//! between edits are outside work; these functions decide what comes next
//! from what that work gave.

use vstd::prelude::*;

use crate::prompt::{build_prompt, prompt_spec};
use crate::search::SearchResult;
use vstd::string::StringSliceAdditionalSpecFns;
use vstd::utf8::{decode_utf8, encode_utf8, is_ascii_chars, is_char_boundary};

verus! {

broadcast use vstd::string::group_string_axioms;

/// The most tokens the model may use for an answer.
pub const MAX_ANSWER_TOKENS: usize = 1024;

/// How many more bytes of the answer each edit of the reply shows.
pub const EDIT_CHUNK_BYTES: usize = 300;

/// The pause between two edits of the reply, in milliseconds.
pub const EDIT_PAUSE_MILLIS: u64 = 200;

// ---------------------------------------------------------------------------
// Telegram API endpoints
// ---------------------------------------------------------------------------

/// The Telegram Bot API methods the bot calls.
#[derive(Clone, Copy, Debug, PartialEq, Eq, Structural)]
pub enum ApiMethod {
    SendMessage,
    SendChatAction,
    EditMessageText,
}

/// The name of an API method.
pub open spec fn method_name(m: ApiMethod) -> Seq<char> {
    match m {
        ApiMethod::SendMessage => "sendMessage"@,
        ApiMethod::SendChatAction => "sendChatAction"@,
        ApiMethod::EditMessageText => "editMessageText"@,
    }
}

/// The endpoint of `method` for the bot `token`: the token stands in the
/// path as it is given.
pub open spec fn api_url_spec(token: Seq<char>, method: ApiMethod) -> Seq<char> {
    "https://api.telegram.org/"@ + token + "/"@ + method_name(method)
}

/// The URL that calls `method` for the bot `token`.
pub fn api_url(token: &str, method: ApiMethod) -> (url: String)
    ensures
        url@ == api_url_spec(token@, method),
{
    let mut url = String::from_str("https://api.telegram.org/");
    url.append(token);
    url.append("/");
    match method {
        ApiMethod::SendMessage => url.append("sendMessage"),
        ApiMethod::SendChatAction => url.append("sendChatAction"),
        ApiMethod::EditMessageText => url.append("editMessageText"),
    }
    url
}

// ---------------------------------------------------------------------------
// From question to reply
// ---------------------------------------------------------------------------

/// The next step of answering a question. The first step, always, is the
/// `typing` chat action; after it comes the search.
#[derive(Debug)]
pub enum QuestionStep {
    /// Ask the model pool, with this prompt and token limit.
    CallModel { prompt: String, max_tokens: usize },
    /// Stream this answer into the chat.
    StreamReply { answer: String },
    /// Send this text to the chat; then the question is done.
    SendMessage { text: String },
    /// The question is done.
    Finish,
}

/// A question step with its texts as characters.
pub enum QuestionOutcome {
    CallModel(Seq<char>, nat),
    StreamReply(Seq<char>),
    SendMessage(Seq<char>),
    Finish,
}

impl View for QuestionStep {
    type V = QuestionOutcome;

    open spec fn view(&self) -> QuestionOutcome {
        match self {
            QuestionStep::CallModel { prompt, max_tokens } => QuestionOutcome::CallModel(
                prompt@,
                *max_tokens as nat,
            ),
            QuestionStep::StreamReply { answer } => QuestionOutcome::StreamReply(answer@),
            QuestionStep::SendMessage { text } => QuestionOutcome::SendMessage(text@),
            QuestionStep::Finish => QuestionOutcome::Finish,
        }
    }
}

/// The notice sent when the search fails.
pub open spec fn search_failed_text() -> Seq<char> {
    "Search failed; try again later."@
}

/// The notice sent when no model answers.
pub open spec fn models_unavailable_text() -> Seq<char> {
    "All models are currently unavailable."@
}

/// The step after the search: a failed search is reported; otherwise the
/// model is asked with the prompt built from the question and the results.
pub open spec fn after_search_spec(
    question: Seq<char>,
    results: Option<Seq<SearchResult>>,
) -> QuestionOutcome {
    match results {
        None => QuestionOutcome::SendMessage(search_failed_text()),
        Some(rs) => QuestionOutcome::CallModel(prompt_spec(question, rs), MAX_ANSWER_TOKENS as nat),
    }
}

/// The step after the model pool: no answer is reported; an answer is
/// streamed.
pub open spec fn after_model_spec(answer: Option<Seq<char>>) -> QuestionOutcome {
    match answer {
        None => QuestionOutcome::SendMessage(models_unavailable_text()),
        Some(a) => QuestionOutcome::StreamReply(a),
    }
}

/// The step after streaming: done when it worked; otherwise the answer is
/// sent as a plain message.
pub open spec fn after_stream_spec(answer: Seq<char>, streamed: bool) -> QuestionOutcome {
    if streamed {
        QuestionOutcome::Finish
    } else {
        QuestionOutcome::SendMessage(answer)
    }
}

/// The step after the search answered `results` (`None` when it failed).
pub fn after_search(question: &str, results: Option<Vec<SearchResult>>) -> (step: QuestionStep)
    ensures
        step@ == after_search_spec(
            question@,
            match results {
                Some(rs) => Some(rs@),
                None => None,
            },
        ),
{
    match results {
        None => QuestionStep::SendMessage { text: String::from_str("Search failed; try again later.") },
        Some(rs) => QuestionStep::CallModel {
            prompt: build_prompt(question, &rs),
            max_tokens: MAX_ANSWER_TOKENS,
        },
    }
}

/// The step after the model pool answered `answer` (`None` when every
/// provider failed).
pub fn after_model(answer: Option<String>) -> (step: QuestionStep)
    ensures
        step@ == after_model_spec(
            match answer {
                Some(a) => Some(a@),
                None => None,
            },
        ),
{
    match answer {
        None => QuestionStep::SendMessage {
            text: String::from_str("All models are currently unavailable."),
        },
        Some(a) => QuestionStep::StreamReply { answer: a },
    }
}

/// The step after streaming `answer`; `streamed` is false when it failed.
pub fn after_stream(answer: String, streamed: bool) -> (step: QuestionStep)
    ensures
        step@ == after_stream_spec(answer@, streamed),
{
    if streamed {
        QuestionStep::Finish
    } else {
        QuestionStep::SendMessage { text: answer }
    }
}

// ---------------------------------------------------------------------------
// Streaming the answer by edits
// ---------------------------------------------------------------------------

/// The end of the next edit when `shown` of `total` bytes are shown: 300
/// bytes further, or the whole answer when less is left; none once the
/// whole answer is shown.
pub open spec fn next_end_spec(shown: nat, total: nat) -> Option<nat> {
    if shown < total {
        Some(
            if total - shown > EDIT_CHUNK_BYTES {
                shown + EDIT_CHUNK_BYTES as nat
            } else {
                total
            },
        )
    } else {
        None
    }
}

/// The bytes shown after one more edit.
pub open spec fn shown_after_step(shown: nat, total: nat) -> nat {
    match next_end_spec(shown, total) {
        Some(e) => e,
        None => shown,
    }
}

/// The bytes shown after `k` edits.
pub open spec fn shown_after(total: nat, k: nat) -> nat
    decreases k,
{
    if k == 0 {
        0
    } else {
        shown_after_step(shown_after(total, (k - 1) as nat), total)
    }
}

/// The smaller of two numbers.
pub open spec fn min_nat(a: nat, b: nat) -> nat {
    if a <= b {
        a
    } else {
        b
    }
}

/// The progress of a reply streamed into one message by edits.
pub struct ReplyStream {
    message_id: i64,
    shown: usize,
    total: usize,
}

/// A reply stream as (edited message, bytes shown, bytes of the answer).
pub struct ReplyStreamView {
    pub message_id: i64,
    pub shown: nat,
    pub total: nat,
}

impl View for ReplyStream {
    type V = ReplyStreamView;

    closed spec fn view(&self) -> ReplyStreamView {
        ReplyStreamView {
            message_id: self.message_id,
            shown: self.shown as nat,
            total: self.total as nat,
        }
    }
}

impl ReplyStream {
    /// The stream of `answer` into the placeholder message whose id the
    /// send call gave back (`None` when the reply held none: id 0). Nothing
    /// is shown yet.
    pub fn new(answer: &str, placeholder_id: Option<i64>) -> (s: ReplyStream)
        ensures
            s@.message_id == match placeholder_id {
                Some(id) => id,
                None => 0,
            },
            s@.shown == 0,
            s@.total == answer.len(),
    {
        let message_id = match placeholder_id {
            Some(id) => id,
            None => 0,
        };
        ReplyStream { message_id, shown: 0, total: answer.len() }
    }

    /// The message the stream edits.
    pub fn message_id(&self) -> (id: i64)
        ensures
            id == self@.message_id,
    {
        self.message_id
    }

    /// The end, in bytes, of the prefix of the answer that the next edit
    /// shows; `None` once the whole answer is shown.
    pub fn next_edit(&mut self) -> (end: Option<usize>)
        ensures
            end matches Some(e) ==> next_end_spec(old(self)@.shown, old(self)@.total) == Some(
                e as nat,
            ),
            end is None <==> next_end_spec(old(self)@.shown, old(self)@.total) is None,
            final(self)@.shown == shown_after_step(old(self)@.shown, old(self)@.total),
            final(self)@.total == old(self)@.total,
            final(self)@.message_id == old(self)@.message_id,
    {
        if self.shown < self.total {
            let end = if self.total - self.shown > EDIT_CHUNK_BYTES {
                self.shown + EDIT_CHUNK_BYTES
            } else {
                self.total
            };
            self.shown = end;
            Some(end)
        } else {
            None
        }
    }
}

/// The first `end` bytes of `answer`, the text of an edit; `None` when `end`
/// does not fall on a character boundary, where the text cannot be cut.
pub fn edit_text(answer: &str, end: usize) -> (text: Option<&str>)
    ensures
        text is Some <==> is_char_boundary(answer.spec_bytes(), end as int),
        text matches Some(t) ==> t.spec_bytes() == answer.spec_bytes().subrange(0, end as int),
        text matches Some(t) ==> t@.is_prefix_of(answer@),
{
    if answer.is_char_boundary(end) {
        let (head, _rest) = answer.split_at(end);
        proof {
            lemma_prefix_chars(answer@, head@, end as int);
        }
        Some(head)
    } else {
        None
    }
}

proof fn lemma_prefix_chars(whole: Seq<char>, head: Seq<char>, end: int)
    requires
        is_char_boundary(encode_utf8(whole), end),
        encode_utf8(head) == encode_utf8(whole).subrange(0, end),
    ensures
        head.is_prefix_of(whole),
{
    broadcast use vstd::utf8::encode_utf8_valid_utf8, vstd::utf8::encode_utf8_decode_utf8;

    let bytes = encode_utf8(whole);
    vstd::utf8::decode_utf8_split(bytes, end);
    assert(decode_utf8(bytes.subrange(0, end)) == head);
    let rest = decode_utf8(bytes.subrange(end, bytes.len() as int));
    assert(whole =~= head + rest);
    assert(whole.subrange(0, head.len() as int) =~= head);
}

/// The whole answer can always be cut for the last edit: its full length is
/// a character boundary.
pub proof fn lemma_whole_answer_cuts(answer: Seq<char>)
    ensures
        is_char_boundary(encode_utf8(answer), encode_utf8(answer).len() as int),
{
    broadcast use vstd::utf8::encode_utf8_valid_utf8;

    vstd::utf8::is_char_boundary_start_end_of_seq(encode_utf8(answer));
}

/// Every byte position of an ASCII answer can be cut, so every edit of such
/// an answer shows a prefix of it.
pub proof fn lemma_ascii_answer_cuts(answer: Seq<char>, end: int)
    requires
        is_ascii_chars(answer),
        0 <= end <= encode_utf8(answer).len(),
    ensures
        is_char_boundary(encode_utf8(answer), end),
{
    broadcast use vstd::utf8::encode_utf8_valid_utf8, vstd::utf8::is_ascii_chars_encode_utf8;

    let bytes = encode_utf8(answer);
    if end == bytes.len() {
        vstd::utf8::is_char_boundary_start_end_of_seq(bytes);
    } else {
        vstd::utf8::is_char_boundary_iff_is_leading_byte(bytes, end);
        assert(bytes[end] == answer[end] as u8);
    }
}

/// The answer is shown 300 bytes at a time: after `k` edits the first
/// `min(300 k, total)` bytes are shown; an edit follows exactly while fewer
/// than all bytes are shown, and each edit shows 300 more bytes, or the rest.
pub proof fn lemma_stream_progress(total: nat, k: nat)
    ensures
        shown_after(total, k) == min_nat(k * EDIT_CHUNK_BYTES as nat, total),
        next_end_spec(shown_after(total, k), total) is Some <==> k * EDIT_CHUNK_BYTES < total,
        k * EDIT_CHUNK_BYTES < total ==> next_end_spec(shown_after(total, k), total) == Some(
            min_nat((k + 1) * EDIT_CHUNK_BYTES as nat, total),
        ),
    decreases k,
{
    if k > 0 {
        lemma_stream_progress(total, (k - 1) as nat);
    }
}

/// Streaming ends with the whole answer shown: the edits reach the full
/// length, after which no edit follows.
pub proof fn lemma_stream_completes(total: nat)
    ensures
        shown_after(total, total) == total,
        next_end_spec(shown_after(total, total), total) is None,
{
    lemma_stream_progress(total, total);
}


/// A successful search, whatever its results (none included), leads to a
/// model call with the prompt built from the question and those results and
/// a limit of 1024 tokens; the search-failed notice is sent exactly when the
/// search failed.
pub proof fn lemma_search_outcome(question: Seq<char>, results: Option<Seq<SearchResult>>)
    ensures
        results matches Some(rs) ==> after_search_spec(question, results)
            == QuestionOutcome::CallModel(prompt_spec(question, rs), 1024),
        results is None ==> after_search_spec(question, results) == QuestionOutcome::SendMessage(
            "Search failed; try again later."@,
        ),
        (after_search_spec(question, results) is SendMessage) <==> results is None,
{
}

/// A model answer is streamed as it is; no answer gives the
/// models-unavailable notice; a failed stream sends the answer as a plain
/// message, a successful one finishes.
pub proof fn lemma_model_and_stream_outcome(answer: Option<Seq<char>>, text: Seq<char>, ok: bool)
    ensures
        answer matches Some(a) ==> after_model_spec(answer) == QuestionOutcome::StreamReply(a),
        answer is None ==> after_model_spec(answer) == QuestionOutcome::SendMessage(
            "All models are currently unavailable."@,
        ),
        ok ==> after_stream_spec(text, ok) == QuestionOutcome::Finish,
        !ok ==> after_stream_spec(text, ok) == QuestionOutcome::SendMessage(text),
{
}


/// The endpoints: `https://api.telegram.org/`, the token as given, `/`, and
/// the method's name.
pub proof fn lemma_api_urls(token: Seq<char>)
    ensures
        api_url_spec(token, ApiMethod::SendMessage) == "https://api.telegram.org/"@ + token
            + "/"@ + "sendMessage"@,
        api_url_spec(token, ApiMethod::SendChatAction) == "https://api.telegram.org/"@ + token
            + "/"@ + "sendChatAction"@,
        api_url_spec(token, ApiMethod::EditMessageText) == "https://api.telegram.org/"@ + token
            + "/"@ + "editMessageText"@,
{
}

} // verus!
