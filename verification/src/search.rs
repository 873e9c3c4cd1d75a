//! Web search results: the query URL sent to the DuckDuckGo instant-answer
//! API and the results drawn from its reply.

use vstd::prelude::*;

verus! {

broadcast use vstd::string::group_string_axioms;

/// The most related topics taken from one reply.
pub const MAX_RELATED_TOPICS: usize = 5;

/// One search hit that goes into a prompt.
#[derive(Debug, Clone)]
pub struct SearchResult {
    pub title: String,
    pub snippet: String,
    pub url: String,
}

impl SearchResult {
    /// A result with the given title, snippet and URL.
    pub fn new(title: String, snippet: String, url: String) -> (r: SearchResult)
        ensures
            r.title@ == title@,
            r.snippet@ == snippet@,
            r.url@ == url@,
    {
        SearchResult { title, snippet, url }
    }
}

/// A related topic of an instant-answer reply (`Text`, `FirstURL`).
#[derive(Debug)]
pub struct RelatedTopic {
    pub text: String,
    pub url: String,
}

/// The fields of an instant-answer reply that the search reads
/// (`AbstractText`, `AbstractURL`, `Heading`, `RelatedTopics`).
#[derive(Debug)]
pub struct DuckDuckGoResponse {
    pub abstract_text: String,
    pub abstract_url: String,
    pub heading: String,
    pub related: Option<Vec<RelatedTopic>>,
}

/// A search result as the three character sequences it holds.
pub open spec fn result_view(r: SearchResult) -> (Seq<char>, Seq<char>, Seq<char>) {
    (r.title@, r.snippet@, r.url@)
}

/// The result that a related topic gives: its text is both title and snippet.
pub open spec fn topic_result(t: RelatedTopic) -> (Seq<char>, Seq<char>, Seq<char>) {
    (t.text@, t.text@, t.url@)
}

/// The first `n` elements of `s`, or all of `s` when it is shorter.
pub open spec fn first_n<A>(s: Seq<A>, n: nat) -> Seq<A> {
    if n < s.len() {
        s.take(n as int)
    } else {
        s
    }
}

/// The results drawn from a reply: the abstract (heading, abstract text,
/// abstract URL) when its text is not empty, then the first five related
/// topics.
pub open spec fn results_spec(resp: DuckDuckGoResponse) -> Seq<(Seq<char>, Seq<char>, Seq<char>)> {
    let abstract_part = if resp.abstract_text@.len() > 0 {
        seq![(resp.heading@, resp.abstract_text@, resp.abstract_url@)]
    } else {
        Seq::empty()
    };
    let related_part = match resp.related {
        Some(topics) => first_n(topics@, MAX_RELATED_TOPICS as nat).map_values(
            |t: RelatedTopic| topic_result(t),
        ),
        None => Seq::empty(),
    };
    abstract_part + related_part
}

/// The instant-answer URL for `query`; the query is inserted as it is.
pub open spec fn search_url_spec(query: Seq<char>) -> Seq<char> {
    "https://api.duckduckgo.com/?q="@ + query + "&format=json"@
}

/// The URL that a search for `query` requests.
pub fn search_url(query: &str) -> (url: String)
    ensures
        url@ == search_url_spec(query@),
{
    let mut url = String::from_str("https://api.duckduckgo.com/?q=");
    url.append(query);
    url.append("&format=json");
    url
}

/// The search results that a reply yields, in order.
pub fn results_from_response(resp: &DuckDuckGoResponse) -> (results: Vec<SearchResult>)
    ensures
        results@.map_values(|r: SearchResult| result_view(r)) == results_spec(*resp),
        results@.len() <= 1 + MAX_RELATED_TOPICS,
{
    let mut results: Vec<SearchResult> = Vec::new();
    if !resp.abstract_text.as_str().is_empty() {
        results.push(
            SearchResult {
                title: resp.heading.clone(),
                snippet: resp.abstract_text.clone(),
                url: resp.abstract_url.clone(),
            },
        );
    }
    let ghost base = results@.map_values(|r: SearchResult| result_view(r));
    assert(base =~= if resp.abstract_text@.len() > 0 {
        seq![(resp.heading@, resp.abstract_text@, resp.abstract_url@)]
    } else {
        Seq::empty()
    });
    let start = results.len();
    match &resp.related {
        Some(topics) => {
            let n = if topics.len() < MAX_RELATED_TOPICS {
                topics.len()
            } else {
                MAX_RELATED_TOPICS
            };
            let mut i: usize = 0;
            while i < n
                invariant
                    n <= topics.len(),
                    n <= MAX_RELATED_TOPICS,
                    i <= n,
                    start <= 1,
                    results@.len() == start + i,
                    results@.map_values(|r: SearchResult| result_view(r)) == base + topics@.take(
                        i as int,
                    ).map_values(|t: RelatedTopic| topic_result(t)),
                decreases n - i,
            {
                let t = &topics[i];
                let ghost before = results@;
                let r = SearchResult { title: t.text.clone(), snippet: t.text.clone(), url: t.url.clone() };
                assert(result_view(r) == topic_result(topics@[i as int]));
                results.push(r);
                assert(results@.map_values(|r: SearchResult| result_view(r)) =~= before.map_values(
                    |r: SearchResult| result_view(r),
                ).push(topic_result(topics@[i as int])));
                assert(topics@.take(i + 1).map_values(|t: RelatedTopic| topic_result(t)) =~= topics@.take(
                    i as int,
                ).map_values(|t: RelatedTopic| topic_result(t)).push(topic_result(topics@[i as int])));
                assert(results@.map_values(|r: SearchResult| result_view(r)) =~= base + topics@.take(
                    i + 1,
                ).map_values(|t: RelatedTopic| topic_result(t)));
                i = i + 1;
            }
            assert(first_n(topics@, MAX_RELATED_TOPICS as nat) =~= topics@.take(n as int));
        },
        None => {
            assert(base + Seq::<(Seq<char>, Seq<char>, Seq<char>)>::empty() =~= base);
        },
    }
    results
}


/// The results of a reply: when the abstract text is not empty, the first
/// result is (heading, abstract text, abstract URL), whatever the related
/// topics are; the related topics then give exactly `min(5, #topics)`
/// results, in order, each with the topic text as title and snippet and the
/// topic URL.
pub proof fn lemma_results_layout(resp: DuckDuckGoResponse)
    ensures
        ({
            let k: int = match resp.related {
                Some(t) => t@.len() as int,
                None => 0,
            };
            let m: int = if k < 5 {
                k
            } else {
                5
            };
            let off: int = if resp.abstract_text@.len() > 0 {
                1
            } else {
                0
            };
            let rs = results_spec(resp);
            &&& rs.len() == off + m
            &&& resp.abstract_text@.len() > 0 ==> rs[0] == (
                resp.heading@,
                resp.abstract_text@,
                resp.abstract_url@,
            )
            &&& forall|i: int|
                0 <= i < m ==> rs[off + i] == (
                    resp.related->0@[i].text@,
                    resp.related->0@[i].text@,
                    resp.related->0@[i].url@,
                )
        }),
{
    let rs = results_spec(resp);
    match resp.related {
        Some(t) => {
            let f = first_n(t@, MAX_RELATED_TOPICS as nat);
            let mapped = f.map_values(|x: RelatedTopic| topic_result(x));
            let off: int = if resp.abstract_text@.len() > 0 {
                1
            } else {
                0
            };
            assert forall|i: int| 0 <= i < f.len() implies rs[off + i] == (
                t@[i].text@,
                t@[i].text@,
                t@[i].url@,
            ) by {
                assert(rs[off + i] == mapped[i]);
                assert(f[i] == t@[i]);
            }
        },
        None => {},
    }
}


/// The search URL holds the query, unencoded, between the instant-answer
/// endpoint and the JSON format parameter.
pub proof fn lemma_search_url(query: Seq<char>)
    ensures
        search_url_spec(query) == "https://api.duckduckgo.com/?q="@ + query + "&format=json"@,
{
}

} // verus!
