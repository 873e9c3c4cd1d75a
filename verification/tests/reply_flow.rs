use tg_ai_bot_rust::reply::{
    after_model, after_search, after_stream, api_url, edit_text, ApiMethod, QuestionStep,
    ReplyStream, MAX_ANSWER_TOKENS,
};
use tg_ai_bot_rust::search::SearchResult;

#[test]
fn api_urls_hold_the_token_and_method() {
    assert_eq!(api_url("123:abc", ApiMethod::SendMessage), "https://api.telegram.org/123:abc/sendMessage");
    assert_eq!(api_url("t", ApiMethod::SendChatAction), "https://api.telegram.org/t/sendChatAction");
    assert_eq!(api_url("t", ApiMethod::EditMessageText), "https://api.telegram.org/t/editMessageText");
}

#[test]
fn failed_search_is_reported() {
    match after_search("q", None) {
        QuestionStep::SendMessage { text } => assert_eq!(text, "Search failed; try again later."),
        other => panic!("{:?}", other),
    }
}

#[test]
fn search_results_go_into_the_prompt() {
    let rs = vec![SearchResult::new("T".to_string(), "S".to_string(), "U".to_string())];
    match after_search("q", Some(rs)) {
        QuestionStep::CallModel { prompt, max_tokens } => {
            assert_eq!(max_tokens, MAX_ANSWER_TOKENS);
            assert_eq!(max_tokens, 1024);
            assert!(prompt.contains("User question:\nq\n"));
            assert!(prompt.contains("- T: S (U)\n"));
        }
        other => panic!("{:?}", other),
    }
}

#[test]
fn model_failure_and_answer() {
    match after_model(None) {
        QuestionStep::SendMessage { text } => assert_eq!(text, "All models are currently unavailable."),
        other => panic!("{:?}", other),
    }
    match after_model(Some("42".to_string())) {
        QuestionStep::StreamReply { answer } => assert_eq!(answer, "42"),
        other => panic!("{:?}", other),
    }
}

#[test]
fn failed_stream_sends_the_answer() {
    assert!(matches!(after_stream("a".to_string(), true), QuestionStep::Finish));
    match after_stream("a".to_string(), false) {
        QuestionStep::SendMessage { text } => assert_eq!(text, "a"),
        other => panic!("{:?}", other),
    }
}

fn ends(answer: &str) -> Vec<usize> {
    let mut s = ReplyStream::new(answer, Some(9));
    assert_eq!(s.message_id(), 9);
    let mut out = Vec::new();
    while let Some(e) = s.next_edit() {
        out.push(e);
    }
    out
}

#[test]
fn stream_edits_grow_by_three_hundred_bytes() {
    assert_eq!(ends(&"a".repeat(650)), vec![300, 600, 650]);
    assert_eq!(ends(&"a".repeat(600)), vec![300, 600]);
    assert_eq!(ends("short"), vec![5]);
    assert!(ends("").is_empty());
}

#[test]
fn stream_without_placeholder_id_edits_message_zero() {
    assert_eq!(ReplyStream::new("x", None).message_id(), 0);
}

#[test]
fn edit_text_cuts_on_character_boundaries() {
    let answer = "aé";
    assert_eq!(edit_text(answer, 1), Some("a"));
    assert_eq!(edit_text(answer, 2), None);
    assert_eq!(edit_text(answer, 3), Some("aé"));
    let long = "a".repeat(650);
    for e in ends(&long) {
        assert_eq!(edit_text(&long, e), Some(&long[..e]));
    }
}
