use tg_ai_bot_rust::prompt::build_prompt;
use tg_ai_bot_rust::search::SearchResult;

fn result(i: usize) -> SearchResult {
    SearchResult::new(format!("T{}", i), format!("S{}", i), format!("U{}", i))
}

#[test]
fn prompt_without_results() {
    assert_eq!(
        build_prompt("Who won?", &vec![]),
        "You are an assistant answering current affairs questions.\nUser question:\nWho won?\n\nSearch results:\n\nAnswer concisely and cite sources inline.\n"
    );
}

#[test]
fn prompt_lists_results_in_order() {
    let rs = vec![result(1), result(2)];
    assert_eq!(
        build_prompt("q", &rs),
        "You are an assistant answering current affairs questions.\nUser question:\nq\n\nSearch results:\n- T1: S1 (U1)\n- T2: S2 (U2)\n\nAnswer concisely and cite sources inline.\n"
    );
}

#[test]
fn prompt_keeps_only_five_results() {
    let rs: Vec<SearchResult> = (0..7).map(result).collect();
    let p = build_prompt("q", &rs);
    assert!(p.contains("- T4: S4 (U4)\n"));
    assert!(!p.contains("T5"));
    assert!(!p.contains("T6"));
    assert_eq!(p, build_prompt("q", &rs[..5].to_vec()));
}
