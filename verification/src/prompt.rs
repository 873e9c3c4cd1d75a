//! The prompt sent to the language model: the question and the search
//! results, framed by fixed instructions.

use vstd::prelude::*;

use crate::search::{first_n, SearchResult};

verus! {

broadcast use vstd::string::group_string_axioms;

/// The most search results that a prompt lists.
pub const MAX_PROMPT_RESULTS: usize = 5;

/// The text that opens every prompt, up to the question.
pub open spec fn prompt_head() -> Seq<char> {
    "You are an assistant answering current affairs questions.\n"@ + "User question:\n"@
}

/// The text between the question and the listed results.
pub open spec fn results_heading() -> Seq<char> {
    "\n\nSearch results:\n"@
}

/// The text that closes every prompt.
pub open spec fn prompt_tail() -> Seq<char> {
    "\nAnswer concisely and cite sources inline.\n"@
}

/// The line that lists one result: `- {title}: {snippet} ({url})`.
pub open spec fn result_line(r: SearchResult) -> Seq<char> {
    "- "@ + r.title@ + ": "@ + r.snippet@ + " ("@ + r.url@ + ")\n"@
}

/// The lines of the given results, in order.
pub open spec fn result_lines(rs: Seq<SearchResult>) -> Seq<char>
    decreases rs.len(),
{
    if rs.len() == 0 {
        Seq::empty()
    } else {
        result_lines(rs.drop_last()) + result_line(rs.last())
    }
}

/// The prompt for `question` with the given search results: the head, the
/// question, the heading, one line for each of the first five results, and
/// the tail.
pub open spec fn prompt_spec(question: Seq<char>, results: Seq<SearchResult>) -> Seq<char> {
    prompt_head() + question + results_heading() + result_lines(
        first_n(results, MAX_PROMPT_RESULTS as nat),
    ) + prompt_tail()
}

/// Builds the prompt for `question` from the search results.
pub fn build_prompt(question: &str, search_results: &Vec<SearchResult>) -> (prompt: String)
    ensures
        prompt@ == prompt_spec(question@, search_results@),
{
    let mut prompt = String::new();
    prompt.append("You are an assistant answering current affairs questions.\n");
    prompt.append("User question:\n");
    prompt.append(question);
    prompt.append("\n\nSearch results:\n");
    let ghost opening = prompt@;
    assert(opening =~= prompt_head() + question@ + results_heading());
    let n = if search_results.len() < MAX_PROMPT_RESULTS {
        search_results.len()
    } else {
        MAX_PROMPT_RESULTS
    };
    let mut i: usize = 0;
    assert(search_results@.take(0) =~= Seq::<SearchResult>::empty());
    while i < n
        invariant
            i <= n <= search_results.len(),
            prompt@ == opening + result_lines(search_results@.take(i as int)),
        decreases n - i,
    {
        let r = &search_results[i];
        prompt.append("- ");
        prompt.append(r.title.as_str());
        prompt.append(": ");
        prompt.append(r.snippet.as_str());
        prompt.append(" (");
        prompt.append(r.url.as_str());
        prompt.append(")\n");
        assert(search_results@.take(i + 1).drop_last() =~= search_results@.take(i as int));
        assert(prompt@ =~= opening + result_lines(search_results@.take(i + 1)));
        i = i + 1;
    }
    assert(first_n(search_results@, MAX_PROMPT_RESULTS as nat) =~= search_results@.take(n as int));
    prompt.append("\nAnswer concisely and cite sources inline.\n");
    prompt
}

/// The prompt lists only the first five results: results after the fifth
/// leave the prompt unchanged.
pub proof fn lemma_prompt_uses_first_five(question: Seq<char>, results: Seq<SearchResult>)
    ensures
        prompt_spec(question, results) == prompt_spec(
            question,
            first_n(results, MAX_PROMPT_RESULTS as nat),
        ),
{
    let f = first_n(results, MAX_PROMPT_RESULTS as nat);
    assert(first_n(f, MAX_PROMPT_RESULTS as nat) =~= f);
}

/// The prompt holds the question verbatim, right after the fixed head.
pub proof fn lemma_prompt_holds_question(question: Seq<char>, results: Seq<SearchResult>)
    ensures
        prompt_spec(question, results).subrange(
            prompt_head().len() as int,
            (prompt_head().len() + question.len()) as int,
        ) == question,
{
    let p = prompt_spec(question, results);
    let rest = results_heading() + result_lines(first_n(results, MAX_PROMPT_RESULTS as nat))
        + prompt_tail();
    assert(p =~= prompt_head() + question + rest);
    assert(p.subrange(prompt_head().len() as int, (prompt_head().len() + question.len()) as int)
        =~= question);
}


proof fn lemma_lines_flatten(rs: Seq<SearchResult>)
    ensures
        result_lines(rs) == Seq::new(
            rs.len(),
            |i: int|
                "- "@ + rs[i].title@ + ": "@ + rs[i].snippet@ + " ("@ + rs[i].url@ + ")\n"@,
        ).flatten(),
    decreases rs.len(),
{
    let lines = Seq::new(
        rs.len(),
        |i: int| "- "@ + rs[i].title@ + ": "@ + rs[i].snippet@ + " ("@ + rs[i].url@ + ")\n"@,
    );
    lines.lemma_flatten_and_flatten_alt_are_equivalent();
    if rs.len() > 0 {
        let init = rs.drop_last();
        lemma_lines_flatten(init);
        let init_lines = Seq::new(
            init.len(),
            |i: int|
                "- "@ + init[i].title@ + ": "@ + init[i].snippet@ + " ("@ + init[i].url@ + ")\n"@,
        );
        init_lines.lemma_flatten_and_flatten_alt_are_equivalent();
        assert(lines.drop_last() =~= init_lines);
    } else {
        assert(lines =~= Seq::<Seq<char>>::empty());
    }
}

/// The prompt, written out: the fixed head, the question, the results
/// heading, then for each of the first `min(5, n)` results, in order, exactly
/// one line `- {title}: {snippet} ({url})` ending in a newline, and the fixed
/// tail.
pub proof fn lemma_prompt_layout(question: Seq<char>, results: Seq<SearchResult>)
    ensures
        ({
            let n: int = if results.len() < 5 {
                results.len() as int
            } else {
                5
            };
            prompt_spec(question, results) == "You are an assistant answering current affairs questions.\n"@
                + "User question:\n"@ + question + "\n\nSearch results:\n"@ + Seq::new(
                n as nat,
                |i: int|
                    "- "@ + results[i].title@ + ": "@ + results[i].snippet@ + " ("@
                        + results[i].url@ + ")\n"@,
            ).flatten() + "\nAnswer concisely and cite sources inline.\n"@
        }),
{
    let n: int = if results.len() < 5 {
        results.len() as int
    } else {
        5
    };
    let f = first_n(results, MAX_PROMPT_RESULTS as nat);
    assert(f.len() == n);
    lemma_lines_flatten(f);
    let a = Seq::new(
        f.len(),
        |i: int| "- "@ + f[i].title@ + ": "@ + f[i].snippet@ + " ("@ + f[i].url@ + ")\n"@,
    );
    let b = Seq::new(
        n as nat,
        |i: int|
            "- "@ + results[i].title@ + ": "@ + results[i].snippet@ + " ("@ + results[i].url@
                + ")\n"@,
    );
    assert(a =~= b);
}

} // verus!
