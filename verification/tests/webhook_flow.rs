use tg_ai_bot_rust::config::Config;
use tg_ai_bot_rust::webhook::{
    after_access_check, after_admin_query, handle_update, AccessStep, Chat, Message, Update,
    WebhookAction,
};

fn config(group: i64) -> Config {
    Config::from_vars(
        Some("tok".to_string()),
        Some("mybot".to_string()),
        Some(group.to_string()),
        Some("dsn".to_string()),
        None,
    )
    .unwrap()
}

fn message(chat_id: i64, kind: &str, text: &str) -> Message {
    Message {
        message_id: Some(7),
        chat: Some(Chat { id: Some(chat_id), kind: Some(kind.to_string()) }),
        from_id: Some(55),
        text: Some(text.to_string()),
        reply_to_from_bot: None,
    }
}

fn update(m: Message) -> Update {
    Update { message: Some(m), edited_message: None }
}

fn question(a: WebhookAction) -> (i64, i64, String) {
    match a {
        WebhookAction::Answer { chat_id, message_id, question } => (chat_id, message_id, question),
        other => panic!("expected an answer, got {:?}", other),
    }
}

fn reply(a: WebhookAction) -> (i64, String) {
    match a {
        WebhookAction::Reply { chat_id, text } => (chat_id, text),
        other => panic!("expected a reply, got {:?}", other),
    }
}

#[test]
fn ask_command_is_answered() {
    let a = handle_update(&update(message(-100, "supergroup", "/ask  what is new? ")), &config(-100));
    assert_eq!(question(a), (-100, 7, "what is new?".to_string()));
}

#[test]
fn repeated_ask_prefixes_are_removed() {
    let a = handle_update(&update(message(-100, "group", "/ask/ask why")), &config(0));
    assert_eq!(question(a).2, "why");
}

#[test]
fn ask_without_question_gets_usage() {
    let a = handle_update(&update(message(-100, "group", "/ask   ")), &config(-100));
    assert_eq!(reply(a), (-100, "Usage: /ask <your question>".to_string()));
}

#[test]
fn other_groups_are_ignored() {
    let a = handle_update(&update(message(-200, "group", "/ask hi")), &config(-100));
    assert!(matches!(a, WebhookAction::Acknowledge));
}

#[test]
fn any_group_is_served_without_a_configured_group() {
    let a = handle_update(&update(message(-200, "group", "/ask hi")), &config(0));
    assert_eq!(question(a).2, "hi");
}

#[test]
fn mention_is_answered_without_the_mention() {
    let a = handle_update(&update(message(-100, "group", "hey @mybot what time is it @mybot")), &config(-100));
    assert_eq!(question(a).2, "hey  what time is it");
}

#[test]
fn bare_mention_is_only_acknowledged() {
    let a = handle_update(&update(message(-100, "group", "  @mybot ")), &config(-100));
    assert!(matches!(a, WebhookAction::Acknowledge));
}

#[test]
fn reply_to_bot_is_answered_with_the_whole_text() {
    let mut m = message(-100, "group", " follow up ");
    m.reply_to_from_bot = Some(true);
    let a = handle_update(&update(m), &config(-100));
    assert_eq!(question(a).2, " follow up ");
}

#[test]
fn reply_to_a_person_is_ignored() {
    let mut m = message(-100, "group", "follow up");
    m.reply_to_from_bot = Some(false);
    assert!(matches!(handle_update(&update(m), &config(-100)), WebhookAction::Acknowledge));
}

#[test]
fn plain_text_is_ignored() {
    let a = handle_update(&update(message(-100, "group", "hello all")), &config(-100));
    assert!(matches!(a, WebhookAction::Acknowledge));
}

#[test]
fn private_chat_needs_an_access_check() {
    let u = update(message(55, "private", "/ask hi"));
    let a = handle_update(&u, &config(-100));
    assert!(matches!(a, WebhookAction::CheckAccess { user_id: 55, group_id: -100 }));
    assert_eq!(question(after_access_check(&u, &config(-100), Some(true))).2, "hi");
    for access in [Some(false), None] {
        assert_eq!(
            reply(after_access_check(&u, &config(-100), access)),
            (55, "Personal use restricted to admin/authorized IDs.".to_string())
        );
    }
}

#[test]
fn edited_message_is_used_without_message() {
    let u = Update { message: None, edited_message: Some(message(-100, "group", "/ask edited")) };
    assert_eq!(question(handle_update(&u, &config(-100))).2, "edited");
}

#[test]
fn update_without_message_or_chat_is_acknowledged() {
    let empty = Update { message: None, edited_message: None };
    assert!(matches!(handle_update(&empty, &config(0)), WebhookAction::Acknowledge));
    let mut m = message(1, "group", "/ask hi");
    m.chat = None;
    assert!(matches!(handle_update(&update(m), &config(0)), WebhookAction::Acknowledge));
}

#[test]
fn missing_ids_default_to_zero() {
    let m = Message {
        message_id: None,
        chat: Some(Chat { id: None, kind: None }),
        from_id: None,
        text: Some("/ask x".to_string()),
        reply_to_from_bot: None,
    };
    assert_eq!(question(handle_update(&update(m), &config(0))), (0, 0, "x".to_string()));
}

#[test]
fn admin_query_decides_or_asks_for_authorization() {
    assert_eq!(after_admin_query(Some(true)), AccessStep::Decided(Some(true)));
    assert_eq!(after_admin_query(Some(false)), AccessStep::QueryAuthorized);
    assert_eq!(after_admin_query(None), AccessStep::Decided(None));
}

#[test]
fn empty_username_makes_any_at_sign_a_mention() {
    let cfg = Config::from_vars(Some("tok".to_string()), None, None, Some("dsn".to_string()), None).unwrap();
    let a = handle_update(&update(message(-1, "group", "hi @ there")), &cfg);
    assert_eq!(question(a).2, "hi  there");
}
