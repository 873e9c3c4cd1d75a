//! What the bot does with an incoming Telegram update: whom it serves, which
//! messages activate it, and which question it then answers.
//!
//! The bot serves one configured group (or every group when none is set);
//! in private chats it serves only administrators and users authorized for
//! that group. It is activated by the `/ask` command, by a mention of its
//! username, or by a reply to one of its own messages.

use vstd::prelude::*;

use crate::config::Config;
use crate::text::{
    contains, contains_spec, replace, replace_spec, starts_with, strip_prefixes_spec, trim,
    trim_spec, trim_start_matches,
};

verus! {

broadcast use vstd::string::group_string_axioms;

/// A chat as far as the bot reads it: its `id` and its `type`.
#[derive(Debug, Clone)]
pub struct Chat {
    pub id: Option<i64>,
    pub kind: Option<String>,
}

/// A message as far as the bot reads it. A field is `None` where the update
/// does not hold it with the expected type.
#[derive(Debug, Clone)]
pub struct Message {
    /// `message_id`.
    pub message_id: Option<i64>,
    /// `chat`; `Some` whenever the message has a `chat` entry.
    pub chat: Option<Chat>,
    /// `from.id`.
    pub from_id: Option<i64>,
    /// `text`.
    pub text: Option<String>,
    /// `reply_to_message.from.is_bot`.
    pub reply_to_from_bot: Option<bool>,
}

/// An update as far as the bot reads it: its `message` and
/// `edited_message` entries.
#[derive(Debug, Clone)]
pub struct Update {
    pub message: Option<Message>,
    pub edited_message: Option<Message>,
}

/// What the webhook does with an update. Whatever it does, it then
/// acknowledges the update.
#[derive(Debug)]
pub enum WebhookAction {
    /// Nothing more.
    Acknowledge,
    /// Look up whether `user_id` is an administrator or authorized for
    /// `group_id`, then ask `after_access_check` what to do.
    CheckAccess { user_id: i64, group_id: i64 },
    /// Send `text` to the chat.
    Reply { chat_id: i64, text: String },
    /// Answer `question`, in reply to message `message_id` of the chat.
    Answer { chat_id: i64, message_id: i64, question: String },
}

/// A webhook action with its texts as characters.
pub enum WebhookOutcome {
    Acknowledge,
    CheckAccess(i64, i64),
    Reply(i64, Seq<char>),
    Answer(i64, i64, Seq<char>),
}

impl View for WebhookAction {
    type V = WebhookOutcome;

    open spec fn view(&self) -> WebhookOutcome {
        match self {
            WebhookAction::Acknowledge => WebhookOutcome::Acknowledge,
            WebhookAction::CheckAccess { user_id, group_id } => WebhookOutcome::CheckAccess(
                *user_id,
                *group_id,
            ),
            WebhookAction::Reply { chat_id, text } => WebhookOutcome::Reply(*chat_id, text@),
            WebhookAction::Answer { chat_id, message_id, question } => WebhookOutcome::Answer(
                *chat_id,
                *message_id,
                question@,
            ),
        }
    }
}

// ---------------------------------------------------------------------------
// Specification
// ---------------------------------------------------------------------------

/// The reply to a private message from a user who may not use the bot there.
pub open spec fn restricted_text() -> Seq<char> {
    "Personal use restricted to admin/authorized IDs."@
}

/// The reply to `/ask` without a question.
pub open spec fn usage_text() -> Seq<char> {
    "Usage: /ask <your question>"@
}

/// The command that activates the bot.
pub open spec fn ask_command() -> Seq<char> {
    "/ask"@
}

/// How a message mentions the bot.
pub open spec fn mention_of(username: Seq<char>) -> Seq<char> {
    "@"@ + username
}

/// The message an update carries: `message`, or else `edited_message`.
pub open spec fn message_of(u: Update) -> Option<Message> {
    match u.message {
        Some(m) => Some(m),
        None => u.edited_message,
    }
}

/// The chat id of a message, 0 when it has none.
pub open spec fn chat_id_of(m: Message) -> i64 {
    match m.chat {
        Some(c) => match c.id {
            Some(id) => id,
            None => 0,
        },
        None => 0,
    }
}

/// The sender id of a message, 0 when it has none.
pub open spec fn from_id_of(m: Message) -> i64 {
    match m.from_id {
        Some(id) => id,
        None => 0,
    }
}

/// The id of a message, 0 when it has none.
pub open spec fn message_id_of(m: Message) -> i64 {
    match m.message_id {
        Some(id) => id,
        None => 0,
    }
}

/// The text of a message, empty when it has none.
pub open spec fn text_of(m: Message) -> Seq<char> {
    match m.text {
        Some(t) => t@,
        None => Seq::empty(),
    }
}

/// The message was sent in a private chat.
pub open spec fn is_private(m: Message) -> bool {
    &&& m.chat is Some
    &&& m.chat->0.kind is Some
    &&& m.chat->0.kind->0@ == "private"@
}

/// The message replies to a message of a bot.
pub open spec fn replies_to_bot(m: Message) -> bool {
    m.reply_to_from_bot == Some(true)
}

/// The question of an `/ask` command: the text without its leading `/ask`
/// prefixes, trimmed.
pub open spec fn ask_question(text: Seq<char>) -> Seq<char> {
    trim_spec(strip_prefixes_spec(text, ask_command()))
}

/// The question of a mention: the text without the mentions, trimmed.
pub open spec fn mention_question(text: Seq<char>, username: Seq<char>) -> Seq<char> {
    trim_spec(replace_spec(text, mention_of(username), Seq::empty()))
}

/// What a message that the bot may serve activates: an `/ask` command (its
/// usage when the question is empty), a mention (nothing when the question
/// is empty), a reply to a bot (the whole text is the question), or nothing.
pub open spec fn dispatch_spec(m: Message, username: Seq<char>) -> WebhookOutcome {
    let text = text_of(m);
    if ask_command().is_prefix_of(text) {
        let q = ask_question(text);
        if q.len() == 0 {
            WebhookOutcome::Reply(chat_id_of(m), usage_text())
        } else {
            WebhookOutcome::Answer(chat_id_of(m), message_id_of(m), q)
        }
    } else if contains_spec(text, mention_of(username)) {
        let q = mention_question(text, username);
        if q.len() == 0 {
            WebhookOutcome::Acknowledge
        } else {
            WebhookOutcome::Answer(chat_id_of(m), message_id_of(m), q)
        }
    } else if replies_to_bot(m) {
        WebhookOutcome::Answer(chat_id_of(m), message_id_of(m), text)
    } else {
        WebhookOutcome::Acknowledge
    }
}

/// What the webhook does with an update: nothing without a message and
/// chat; an access check for a private chat; nothing for a group other than
/// the configured one (when one is configured); otherwise what the message
/// activates.
pub open spec fn webhook_spec(u: Update, cfg: Config) -> WebhookOutcome {
    match message_of(u) {
        None => WebhookOutcome::Acknowledge,
        Some(m) => if m.chat is None {
            WebhookOutcome::Acknowledge
        } else if is_private(m) {
            WebhookOutcome::CheckAccess(from_id_of(m), cfg.allowed_group_id)
        } else if cfg.allowed_group_id != 0 && chat_id_of(m) != cfg.allowed_group_id {
            WebhookOutcome::Acknowledge
        } else {
            dispatch_spec(m, cfg.telegram_bot_username@)
        },
    }
}

/// What the webhook does with a private message once the access check gave
/// `access` (`None` when the lookup failed): what the message activates when
/// access is granted, the restriction notice otherwise.
pub open spec fn after_access_spec(u: Update, cfg: Config, access: Option<bool>) -> WebhookOutcome {
    match message_of(u) {
        None => WebhookOutcome::Acknowledge,
        Some(m) => if m.chat is None {
            WebhookOutcome::Acknowledge
        } else if access == Some(true) {
            dispatch_spec(m, cfg.telegram_bot_username@)
        } else {
            WebhookOutcome::Reply(chat_id_of(m), restricted_text())
        },
    }
}

// ---------------------------------------------------------------------------
// Executable decisions
// ---------------------------------------------------------------------------

fn current_message(update: &Update) -> (m: Option<&Message>)
    ensures
        match m {
            Some(x) => message_of(*update) == Some(*x),
            None => message_of(*update) is None,
        },
{
    match &update.message {
        Some(m) => Some(m),
        None => update.edited_message.as_ref(),
    }
}

fn chat_id(m: &Message) -> (id: i64)
    ensures
        id == chat_id_of(*m),
{
    match &m.chat {
        Some(c) => match c.id {
            Some(id) => id,
            None => 0,
        },
        None => 0,
    }
}

fn message_id(m: &Message) -> (id: i64)
    ensures
        id == message_id_of(*m),
{
    match m.message_id {
        Some(id) => id,
        None => 0,
    }
}

fn private_chat(m: &Message) -> (r: bool)
    ensures
        r == is_private(*m),
{
    match &m.chat {
        Some(c) => match &c.kind {
            Some(k) => *k == String::from_str("private"),
            None => false,
        },
        None => false,
    }
}

fn dispatch(m: &Message, username: &String) -> (action: WebhookAction)
    ensures
        action@ == dispatch_spec(*m, username@),
{
    let empty = String::new();
    let text: &str = match &m.text {
        Some(t) => t.as_str(),
        None => empty.as_str(),
    };
    assert(text@ == text_of(*m));
    if starts_with(text, "/ask") {
        let rest = trim_start_matches(text, "/ask");
        let question = trim(rest.as_str());
        if question.as_str().is_empty() {
            return WebhookAction::Reply {
                chat_id: chat_id(m),
                text: String::from_str("Usage: /ask <your question>"),
            };
        }
        return WebhookAction::Answer { chat_id: chat_id(m), message_id: message_id(m), question };
    }
    let mut mention = String::from_str("@");
    mention.append(username.as_str());
    proof {
        reveal_strlit("@");
    }
    if contains(text, mention.as_str()) {
        let stripped = replace(text, mention.as_str(), "");
        proof {
            reveal_strlit("");
            assert(""@ =~= Seq::<char>::empty());
            assert(mention@ == mention_of(username@));
        }
        let question = trim(stripped.as_str());
        if question.as_str().is_empty() {
            return WebhookAction::Acknowledge;
        }
        return WebhookAction::Answer { chat_id: chat_id(m), message_id: message_id(m), question };
    }
    if m.reply_to_from_bot == Some(true) {
        return WebhookAction::Answer {
            chat_id: chat_id(m),
            message_id: message_id(m),
            question: String::from_str(text),
        };
    }
    WebhookAction::Acknowledge
}

/// What to do with an incoming update.
pub fn handle_update(update: &Update, cfg: &Config) -> (action: WebhookAction)
    ensures
        action@ == webhook_spec(*update, *cfg),
{
    let m = match current_message(update) {
        Some(m) => m,
        None => {
            return WebhookAction::Acknowledge;
        },
    };
    if m.chat.is_none() {
        return WebhookAction::Acknowledge;
    }
    if private_chat(m) {
        let user_id = match m.from_id {
            Some(id) => id,
            None => 0,
        };
        return WebhookAction::CheckAccess { user_id, group_id: cfg.allowed_group_id };
    }
    if cfg.allowed_group_id != 0 && chat_id(m) != cfg.allowed_group_id {
        return WebhookAction::Acknowledge;
    }
    dispatch(m, &cfg.telegram_bot_username)
}

/// What to do with a private message once the access check answered
/// `access` (`None` when the lookup failed).
pub fn after_access_check(update: &Update, cfg: &Config, access: Option<bool>) -> (action:
    WebhookAction)
    ensures
        action@ == after_access_spec(*update, *cfg, access),
{
    let m = match current_message(update) {
        Some(m) => m,
        None => {
            return WebhookAction::Acknowledge;
        },
    };
    if m.chat.is_none() {
        return WebhookAction::Acknowledge;
    }
    if access == Some(true) {
        dispatch(m, &cfg.telegram_bot_username)
    } else {
        WebhookAction::Reply {
            chat_id: chat_id(m),
            text: String::from_str("Personal use restricted to admin/authorized IDs."),
        }
    }
}

// ---------------------------------------------------------------------------
// The access lookup
// ---------------------------------------------------------------------------

/// The access lookup after the administrator query.
#[derive(Debug, Clone, Copy, PartialEq, Eq, Structural)]
pub enum AccessStep {
    /// The lookup is over: granted, refused, or failed (`None`).
    Decided(Option<bool>),
    /// Ask whether the user is authorized for the group.
    QueryAuthorized,
}

/// What the access lookup does after the administrator query answered
/// `is_admin` (`None` when it failed).
pub open spec fn after_admin_spec(is_admin: Option<bool>) -> AccessStep {
    match is_admin {
        Some(true) => AccessStep::Decided(Some(true)),
        Some(false) => AccessStep::QueryAuthorized,
        None => AccessStep::Decided(None),
    }
}

/// The outcome of the whole lookup: an administrator is granted access;
/// anyone else has what the authorization query answered; a failed query
/// fails the lookup.
pub open spec fn access_spec(is_admin: Option<bool>, is_authorized: Option<bool>) -> Option<bool> {
    match after_admin_spec(is_admin) {
        AccessStep::Decided(r) => r,
        AccessStep::QueryAuthorized => is_authorized,
    }
}

/// The access lookup's step after the administrator query.
pub fn after_admin_query(is_admin: Option<bool>) -> (step: AccessStep)
    ensures
        step == after_admin_spec(is_admin),
{
    match is_admin {
        Some(true) => AccessStep::Decided(Some(true)),
        Some(false) => AccessStep::QueryAuthorized,
        None => AccessStep::Decided(None),
    }
}

// ---------------------------------------------------------------------------
// Laws
// ---------------------------------------------------------------------------

/// Group-only use: a message (the update's `message`, or lacking one its
/// `edited_message`) in a chat that is not private, when a group is
/// configured and the chat is not that group, is acknowledged and nothing
/// else, whatever it says. An update without a message, or whose message has
/// no chat, is only acknowledged too.
pub proof fn lemma_other_groups_ignored(u: Update, cfg: Config, m: Message, chat: Chat)
    requires
        u.message == Some(m) || (u.message is None && u.edited_message == Some(m)),
        m.chat == Some(chat),
        !(chat.kind matches Some(k) && k@ == "private"@),
        cfg.allowed_group_id != 0,
        chat.id != Some(cfg.allowed_group_id),
    ensures
        webhook_spec(u, cfg) == WebhookOutcome::Acknowledge,
{
    assert(message_of(u) == Some(m));
}

/// Updates without a message (neither `message` nor `edited_message`), or
/// whose message (`message`, or lacking one `edited_message`) has no chat,
/// are only acknowledged, before and after an access check.
pub proof fn lemma_no_chat_ignored(u: Update, cfg: Config, access: Option<bool>)
    requires
        message_of(u) is None || message_of(u)->0.chat is None,
    ensures
        webhook_spec(u, cfg) == WebhookOutcome::Acknowledge,
        after_access_spec(u, cfg, access) == WebhookOutcome::Acknowledge,
{
}

/// A private message (the update's `message`, or lacking one its
/// `edited_message`, in a chat of type `private`) is never served before its
/// sender's access is checked for the configured group, and when access is
/// refused, or the lookup fails, the only reply is the restriction notice,
/// sent to the chat (0 when it has no id).
pub proof fn lemma_private_needs_access(
    u: Update,
    cfg: Config,
    m: Message,
    chat: Chat,
    access: Option<bool>,
)
    requires
        u.message == Some(m) || (u.message is None && u.edited_message == Some(m)),
        m.chat == Some(chat),
        chat.kind matches Some(k) && k@ == "private"@,
    ensures
        webhook_spec(u, cfg) == WebhookOutcome::CheckAccess(
            match m.from_id {
                Some(id) => id,
                None => 0,
            },
            cfg.allowed_group_id,
        ),
        access != Some(true) ==> after_access_spec(u, cfg, access) == WebhookOutcome::Reply(
            match chat.id {
                Some(id) => id,
                None => 0,
            },
            "Personal use restricted to admin/authorized IDs."@,
        ),
{
    assert(message_of(u) == Some(m));
}

/// Access in a private chat is granted exactly to administrators and to the
/// users that the authorization query accepts; a failed query refuses it.
pub proof fn lemma_access_granted(is_admin: Option<bool>, is_authorized: Option<bool>)
    ensures
        access_spec(is_admin, is_authorized) == Some(true) <==> (is_admin == Some(true) || (
        is_admin == Some(false) && is_authorized == Some(true))),
{
}

/// The bot answers a message only when it is activated: by `/ask` with a
/// question, by a mention with a question, or as a reply to a bot; the
/// question of `/ask` and of a mention is never empty and neither starts nor
/// ends with white space.
pub proof fn lemma_answers_only_when_activated(m: Message, username: Seq<char>)
    ensures
        dispatch_spec(m, username) matches WebhookOutcome::Answer(c, i, q) ==> {
            &&& c == chat_id_of(m)
            &&& i == message_id_of(m)
            &&& {
                ||| ask_command().is_prefix_of(text_of(m)) && q == ask_question(text_of(m))
                ||| !ask_command().is_prefix_of(text_of(m)) && contains_spec(
                    text_of(m),
                    mention_of(username),
                ) && q == mention_question(text_of(m), username)
                ||| !ask_command().is_prefix_of(text_of(m)) && !contains_spec(
                    text_of(m),
                    mention_of(username),
                ) && replies_to_bot(m) && q == text_of(m)
            }
            &&& (ask_command().is_prefix_of(text_of(m)) || contains_spec(
                text_of(m),
                mention_of(username),
            )) ==> q.len() > 0 && !crate::text::is_white_space(q[0])
                && !crate::text::is_white_space(q.last())
        },
{
    crate::text::lemma_trim_bounds(strip_prefixes_spec(text_of(m), ask_command()));
    crate::text::lemma_trim_bounds(replace_spec(text_of(m), mention_of(username), Seq::empty()));
}

/// `/ask` without a question is answered with the usage line.
pub proof fn lemma_empty_ask_gets_usage(m: Message, username: Seq<char>)
    requires
        ask_command().is_prefix_of(text_of(m)),
        ask_question(text_of(m)).len() == 0,
    ensures
        dispatch_spec(m, username) == WebhookOutcome::Reply(chat_id_of(m), usage_text()),
{
}


/// Activation is complete. The message `m` is the update's `message` (or,
/// lacking one, its `edited_message`), with a chat and a text; it is either
/// private (access then granted) or in a non-private chat of the configured
/// group (any group when none is configured). In such a message `/ask` followed by a
/// question that trims to something non-empty is answered with that
/// question; a text that does not start with `/ask` but mentions `@username`
/// is answered with the text stripped of every mention and trimmed, when that
/// is not empty; a reply to a bot that does neither is answered with its
/// whole text. The answer goes to the message's chat (0 when it has no id),
/// in reply to the message (0 when it has no id). The same holds for a
/// private message once access is granted.
pub proof fn lemma_activation_answers(
    u: Update,
    cfg: Config,
    m: Message,
    chat: Chat,
    text: Seq<char>,
    private: bool,
)
    requires
        u.message == Some(m) || (u.message is None && u.edited_message == Some(m)),
        m.chat == Some(chat),
        m.text matches Some(t) && t@ == text,
        private ==> (chat.kind matches Some(k) && k@ == "private"@),
        !private ==> !(chat.kind matches Some(k) && k@ == "private"@),
        !private ==> (cfg.allowed_group_id == 0 || chat.id == Some(cfg.allowed_group_id)),
    ensures
        ({
            let outcome = if private {
                after_access_spec(u, cfg, Some(true))
            } else {
                webhook_spec(u, cfg)
            };
            let cid: i64 = match chat.id {
                Some(id) => id,
                None => 0,
            };
            let mid: i64 = match m.message_id {
                Some(id) => id,
                None => 0,
            };
            let ask_q = crate::text::trim_spec(crate::text::strip_prefixes_spec(text, "/ask"@));
            let mention = "@"@ + cfg.telegram_bot_username@;
            let mention_q = crate::text::trim_spec(
                crate::text::replace_spec(text, mention, Seq::empty()),
            );
            &&& ("/ask"@.is_prefix_of(text) && ask_q.len() > 0) ==> outcome
                == WebhookOutcome::Answer(cid, mid, ask_q)
            &&& ("/ask"@.is_prefix_of(text) && ask_q.len() == 0) ==> outcome
                == WebhookOutcome::Reply(cid, "Usage: /ask <your question>"@)
            &&& (!"/ask"@.is_prefix_of(text) && crate::text::contains_spec(text, mention)
                && mention_q.len() > 0) ==> outcome == WebhookOutcome::Answer(cid, mid, mention_q)
            &&& (!"/ask"@.is_prefix_of(text) && !crate::text::contains_spec(text, mention)
                && m.reply_to_from_bot == Some(true)) ==> outcome == WebhookOutcome::Answer(
                cid,
                mid,
                text,
            )
        }),
{
    assert(message_of(u) == Some(m));
}

} // verus!
