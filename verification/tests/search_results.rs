use tg_ai_bot_rust::search::{results_from_response, search_url, DuckDuckGoResponse, RelatedTopic};

fn topic(i: usize) -> RelatedTopic {
    RelatedTopic { text: format!("topic {}", i), url: format!("https://t/{}", i) }
}

#[test]
fn search_url_inserts_query() {
    assert_eq!(search_url("rust lang"), "https://api.duckduckgo.com/?q=rust lang&format=json");
    assert_eq!(search_url(""), "https://api.duckduckgo.com/?q=&format=json");
}

#[test]
fn abstract_comes_first_then_five_topics() {
    let resp = DuckDuckGoResponse {
        abstract_text: "Rust is a language".to_string(),
        abstract_url: "https://rust".to_string(),
        heading: "Rust".to_string(),
        related: Some((0..8).map(topic).collect()),
    };
    let rs = results_from_response(&resp);
    assert_eq!(rs.len(), 6);
    assert_eq!(rs[0].title, "Rust");
    assert_eq!(rs[0].snippet, "Rust is a language");
    assert_eq!(rs[0].url, "https://rust");
    for i in 0..5 {
        assert_eq!(rs[i + 1].title, format!("topic {}", i));
        assert_eq!(rs[i + 1].snippet, format!("topic {}", i));
        assert_eq!(rs[i + 1].url, format!("https://t/{}", i));
    }
}

#[test]
fn empty_abstract_is_skipped() {
    let resp = DuckDuckGoResponse {
        abstract_text: String::new(),
        abstract_url: "https://ignored".to_string(),
        heading: "Ignored".to_string(),
        related: Some((0..2).map(topic).collect()),
    };
    let rs = results_from_response(&resp);
    assert_eq!(rs.len(), 2);
    assert_eq!(rs[0].title, "topic 0");
    assert_eq!(rs[1].url, "https://t/1");
}

#[test]
fn no_topics_and_no_abstract_give_nothing() {
    let resp = DuckDuckGoResponse {
        abstract_text: String::new(),
        abstract_url: String::new(),
        heading: String::new(),
        related: None,
    };
    assert!(results_from_response(&resp).is_empty());
}
