//! A pool of language-model providers tried in priority order, falling back
//! to the next provider when one is unavailable or fails.
//!
//! Asking a provider is outside work, so the pool does not ask: it decides.
//! The caller asks for the first step, performs it (checks a provider's
//! availability or calls it), reports what came back, and receives the next
//! step, until the pool answers or gives up.

use vstd::prelude::*;

use crate::text::{take_chars, take_spec};

verus! {

broadcast use vstd::string::group_string_axioms;

/// Providers in priority order: the first one is tried first.
pub struct LLMPool<P> {
    providers: Vec<P>,
}

/// What the caller of the pool does next.
#[derive(Debug)]
pub enum FallbackStep {
    /// Ask provider `i` whether it is available.
    CheckAvailability(usize),
    /// Call provider `i` with the prompt.
    Call(usize),
    /// The pool's answer: a provider's reply.
    Answer(String),
    /// Every provider was unavailable or failed.
    AllFailed,
}

/// A fallback step with its reply as characters.
pub enum Decision {
    Check(nat),
    Call(nat),
    Answer(Seq<char>),
    AllFailed,
}

impl View for FallbackStep {
    type V = Decision;

    open spec fn view(&self) -> Decision {
        match self {
            FallbackStep::CheckAvailability(i) => Decision::Check(*i as nat),
            FallbackStep::Call(i) => Decision::Call(*i as nat),
            FallbackStep::Answer(s) => Decision::Answer(s@),
            FallbackStep::AllFailed => Decision::AllFailed,
        }
    }
}

/// Check provider `j` next, or give up when there is none.
pub open spec fn advance(n: nat, j: nat) -> Decision {
    if j < n {
        Decision::Check(j)
    } else {
        Decision::AllFailed
    }
}

/// The first step of a pool of `n` providers.
pub open spec fn start_spec(n: nat) -> Decision {
    advance(n, 0)
}

/// The step after provider `i` said whether it is available: call it, or
/// move on to the next one.
pub open spec fn on_availability_spec(n: nat, i: nat, available: bool) -> Decision {
    if available {
        Decision::Call(i)
    } else {
        advance(n, i + 1)
    }
}

/// The step after provider `i` was called: its reply is the answer, or, when
/// it failed, the pool moves on to the next provider.
pub open spec fn on_reply_spec(n: nat, i: nat, reply: Option<Seq<char>>) -> Decision {
    match reply {
        Some(s) => Decision::Answer(s),
        None => advance(n, i + 1),
    }
}

impl<P> View for LLMPool<P> {
    type V = Seq<P>;

    closed spec fn view(&self) -> Seq<P> {
        self.providers@
    }
}

impl<P> LLMPool<P> {
    /// A pool of the given providers, highest priority first.
    pub fn new(providers: Vec<P>) -> (pool: Self)
        ensures
            pool@ == providers@,
    {
        LLMPool { providers }
    }

    /// The number of providers.
    pub fn len(&self) -> (n: usize)
        ensures
            n == self@.len(),
    {
        self.providers.len()
    }

    /// Provider `i` in priority order.
    pub fn provider(&self, i: usize) -> (p: &P)
        requires
            i < self@.len(),
        ensures
            *p == self@[i as int],
    {
        &self.providers[i]
    }

    fn advance(&self, j: usize) -> (step: FallbackStep)
        requires
            j <= self@.len(),
        ensures
            step@ == advance(self@.len(), j as nat),
    {
        if j < self.providers.len() {
            FallbackStep::CheckAvailability(j)
        } else {
            FallbackStep::AllFailed
        }
    }

    /// The first step: check the highest-priority provider, or give up at
    /// once when the pool is empty.
    pub fn first_step(&self) -> (step: FallbackStep)
        ensures
            step@ == start_spec(self@.len()),
    {
        self.advance(0)
    }

    /// The step after provider `i` reported whether it is available.
    pub fn after_availability(&self, i: usize, available: bool) -> (step: FallbackStep)
        requires
            i < self@.len(),
        ensures
            step@ == on_availability_spec(self@.len(), i as nat, available),
    {
        // `i` is below a `usize` length, so `i + 1` cannot overflow.
        let _count = self.providers.len();
        if available {
            FallbackStep::Call(i)
        } else {
            self.advance(i + 1)
        }
    }

    /// The step after provider `i` was called; `reply` is `None` when the
    /// call failed.
    pub fn after_call(&self, i: usize, reply: Option<String>) -> (step: FallbackStep)
        requires
            i < self@.len(),
        ensures
            step@ == on_reply_spec(
                self@.len(),
                i as nat,
                match reply {
                    Some(s) => Some(s@),
                    None => None,
                },
            ),
    {
        // `i` is below a `usize` length, so `i + 1` cannot overflow.
        let _count = self.providers.len();
        match reply {
            Some(s) => FallbackStep::Answer(s),
            None => self.advance(i + 1),
        }
    }
}

// ---------------------------------------------------------------------------
// The fallback laws, stated over what each provider would do.
// ---------------------------------------------------------------------------

/// What a provider does when the pool reaches it.
pub enum ProviderOutcome {
    /// It reports that it is unavailable.
    Unavailable,
    /// It is available, but the call fails.
    Failed,
    /// It is available and replies.
    Answered(Seq<char>),
}

/// The reply that an outcome gives to a call.
pub open spec fn reply_of(o: ProviderOutcome) -> Option<Seq<char>> {
    match o {
        ProviderOutcome::Answered(s) => Some(s),
        _ => None,
    }
}

/// The next step when the providers behave as `outcomes` says.
pub open spec fn respond(outcomes: Seq<ProviderOutcome>, d: Decision) -> Decision {
    let n = outcomes.len();
    match d {
        Decision::Check(i) => if i < n {
            on_availability_spec(n, i, !(outcomes[i as int] is Unavailable))
        } else {
            d
        },
        Decision::Call(i) => if i < n {
            on_reply_spec(n, i, reply_of(outcomes[i as int]))
        } else {
            d
        },
        _ => d,
    }
}

/// The step reached after `fuel` more steps.
pub open spec fn run(outcomes: Seq<ProviderOutcome>, d: Decision, fuel: nat) -> Decision
    decreases fuel,
{
    if fuel == 0 {
        d
    } else {
        run(outcomes, respond(outcomes, d), (fuel - 1) as nat)
    }
}

/// The steps taken from `d`, `fuel` of them after `d` itself.
pub open spec fn trace(outcomes: Seq<ProviderOutcome>, d: Decision, fuel: nat) -> Seq<Decision>
    decreases fuel,
{
    if fuel == 0 {
        seq![d]
    } else {
        seq![d] + trace(outcomes, respond(outcomes, d), (fuel - 1) as nat)
    }
}

/// The reply of the first provider from `i` on that answers.
pub open spec fn first_answer(outcomes: Seq<ProviderOutcome>, i: nat) -> Option<Seq<char>>
    decreases outcomes.len() - i,
{
    if i >= outcomes.len() {
        None
    } else {
        match outcomes[i as int] {
            ProviderOutcome::Answered(s) => Some(s),
            _ => first_answer(outcomes, i + 1),
        }
    }
}

/// The pool's final step when the providers behave as `outcomes` says.
pub open spec fn expected_outcome(outcomes: Seq<ProviderOutcome>) -> Decision {
    match first_answer(outcomes, 0) {
        Some(s) => Decision::Answer(s),
        None => Decision::AllFailed,
    }
}

proof fn lemma_terminal_stays(outcomes: Seq<ProviderOutcome>, d: Decision, fuel: nat)
    requires
        d is Answer || d is AllFailed,
    ensures
        run(outcomes, d, fuel) == d,
    decreases fuel,
{
    if fuel > 0 {
        lemma_terminal_stays(outcomes, d, (fuel - 1) as nat);
    }
}

proof fn lemma_run_from(outcomes: Seq<ProviderOutcome>, i: nat, fuel: nat)
    requires
        i < outcomes.len(),
        fuel >= 2 * (outcomes.len() - i),
    ensures
        run(outcomes, Decision::Check(i), fuel) == expected_from(outcomes, i),
    decreases outcomes.len() - i,
{
    let n = outcomes.len();
    let after_check = respond(outcomes, Decision::Check(i));
    assert(run(outcomes, Decision::Check(i), fuel) == run(outcomes, after_check, (fuel - 1) as nat));
    match outcomes[i as int] {
        ProviderOutcome::Unavailable => {
            assert(after_check == advance(n, i + 1));
            assert(first_answer(outcomes, i) == first_answer(outcomes, i + 1));
            if i + 1 < n {
                lemma_run_from(outcomes, i + 1, (fuel - 1) as nat);
            } else {
                lemma_terminal_stays(outcomes, Decision::AllFailed, (fuel - 1) as nat);
            }
        },
        ProviderOutcome::Failed => {
            assert(after_check == Decision::Call(i));
            let after_call = respond(outcomes, Decision::Call(i));
            assert(after_call == advance(n, i + 1));
            assert(run(outcomes, Decision::Call(i), (fuel - 1) as nat) == run(
                outcomes,
                after_call,
                (fuel - 2) as nat,
            ));
            assert(first_answer(outcomes, i) == first_answer(outcomes, i + 1));
            if i + 1 < n {
                lemma_run_from(outcomes, i + 1, (fuel - 2) as nat);
            } else {
                lemma_terminal_stays(outcomes, Decision::AllFailed, (fuel - 2) as nat);
            }
        },
        ProviderOutcome::Answered(s) => {
            assert(after_check == Decision::Call(i));
            let after_call = respond(outcomes, Decision::Call(i));
            assert(after_call == Decision::Answer(s));
            assert(run(outcomes, Decision::Call(i), (fuel - 1) as nat) == run(
                outcomes,
                after_call,
                (fuel - 2) as nat,
            ));
            lemma_terminal_stays(outcomes, Decision::Answer(s), (fuel - 2) as nat);
        },
    }
}

/// The final step from checking provider `i` on.
pub open spec fn expected_from(outcomes: Seq<ProviderOutcome>, i: nat) -> Decision {
    match first_answer(outcomes, i) {
        Some(s) => Decision::Answer(s),
        None => Decision::AllFailed,
    }
}

/// Fallback answers with the reply of the first provider, in priority order,
/// that is available and answers; it fails if and only if every provider is
/// unavailable or fails. Twice as many steps as there are providers always
/// suffice to reach that end, and further steps do not change it.
pub proof fn lemma_fallback_result(outcomes: Seq<ProviderOutcome>, fuel: nat)
    requires
        fuel >= 2 * outcomes.len(),
    ensures
        run(outcomes, start_spec(outcomes.len()), fuel) == expected_outcome(outcomes),
        expected_outcome(outcomes) is AllFailed <==> forall|i: int|
            0 <= i < outcomes.len() ==> !(outcomes[i] is Answered),
{
    if outcomes.len() > 0 {
        lemma_run_from(outcomes, 0, fuel);
    } else {
        lemma_terminal_stays(outcomes, Decision::AllFailed, fuel);
    }
    lemma_first_answer_none(outcomes, 0);
}

proof fn lemma_first_answer_none(outcomes: Seq<ProviderOutcome>, i: nat)
    ensures
        first_answer(outcomes, i) is None <==> forall|j: int|
            i <= j < outcomes.len() ==> !(outcomes[j] is Answered),
    decreases outcomes.len() - i,
{
    if i < outcomes.len() {
        lemma_first_answer_none(outcomes, i + 1);
        if first_answer(outcomes, i) is None {
            assert forall|j: int| i <= j < outcomes.len() implies !(outcomes[j] is Answered) by {
                if j > i {
                }
            }
        }
    }
}

/// The rank of a step: checks and calls of later providers rank higher.
pub open spec fn rank(n: nat, d: Decision) -> nat {
    match d {
        Decision::Check(i) => 2 * i,
        Decision::Call(i) => 2 * i + 1,
        _ => 2 * n,
    }
}

/// A step that can occur while the pool works: nothing before provider `i`
/// has answered, and provider `i` is only called when it is available.
pub open spec fn reachable(outcomes: Seq<ProviderOutcome>, d: Decision) -> bool {
    match d {
        Decision::Check(i) => i < outcomes.len() && forall|j: int|
            0 <= j < i ==> !((#[trigger] outcomes[j]) is Answered),
        Decision::Call(i) => i < outcomes.len() && !(outcomes[i as int] is Unavailable) && forall|
            j: int,
        |
            0 <= j < i ==> !((#[trigger] outcomes[j]) is Answered),
        _ => true,
    }
}

proof fn lemma_trace_steps(outcomes: Seq<ProviderOutcome>, d: Decision, fuel: nat)
    requires
        reachable(outcomes, d),
    ensures
        trace(outcomes, d, fuel).len() == fuel + 1,
        trace(outcomes, d, fuel)[0] == d,
        forall|k: int| 0 <= k <= fuel ==> reachable(outcomes, #[trigger] trace(outcomes, d, fuel)[k]),
        forall|k1: int, k2: int|
            0 <= k1 < k2 <= fuel && !(trace(outcomes, d, fuel)[k1] is Answer) && !(trace(
                outcomes,
                d,
                fuel,
            )[k1] is AllFailed) ==> rank(outcomes.len(), #[trigger] trace(outcomes, d, fuel)[k1])
                < rank(outcomes.len(), #[trigger] trace(outcomes, d, fuel)[k2]),
        forall|k1: int, k2: int|
            0 <= k1 < k2 <= fuel && (trace(outcomes, d, fuel)[k1] is Answer || trace(
                outcomes,
                d,
                fuel,
            )[k1] is AllFailed) ==> (#[trigger] trace(outcomes, d, fuel)[k2]) == (#[trigger] trace(
                outcomes,
                d,
                fuel,
            )[k1]),
    decreases fuel,
{
    let n = outcomes.len();
    let t = trace(outcomes, d, fuel);
    if fuel > 0 {
        let next = respond(outcomes, d);
        assert(reachable(outcomes, next)) by {
            match d {
                Decision::Check(i) => {
                    if !(outcomes[i as int] is Unavailable) {
                    } else if i + 1 < n {
                        assert forall|j: int| 0 <= j < i + 1 implies !((
                        #[trigger] outcomes[j]) is Answered) by {
                            if j < i {
                            }
                        }
                    }
                },
                Decision::Call(i) => {
                    if !(outcomes[i as int] is Answered) && i + 1 < n {
                        assert forall|j: int| 0 <= j < i + 1 implies !((
                        #[trigger] outcomes[j]) is Answered) by {
                            if j < i {
                            }
                        }
                    }
                },
                _ => {},
            }
        }
        lemma_trace_steps(outcomes, next, (fuel - 1) as nat);
        let rest = trace(outcomes, next, (fuel - 1) as nat);
        assert(t =~= seq![d] + rest);
        assert(!(d is Answer) && !(d is AllFailed) ==> rank(n, d) < rank(n, next)) by {
            match d {
                Decision::Check(i) => {},
                Decision::Call(i) => {},
                _ => {},
            }
        }
        assert((d is Answer || d is AllFailed) ==> next == d);
        assert forall|k: int| 0 <= k <= fuel implies reachable(outcomes, #[trigger] t[k]) by {
            if k > 0 {
                assert(t[k] == rest[k - 1]);
            }
        }
        assert forall|k1: int, k2: int|
            0 <= k1 < k2 <= fuel && !(t[k1] is Answer) && !(t[k1] is AllFailed) implies rank(
            n,
            #[trigger] t[k1],
        ) < rank(n, #[trigger] t[k2]) by {
            assert(t[k2] == rest[k2 - 1]);
            if k1 == 0 {
                if k2 - 1 > 0 {
                    if next is Answer || next is AllFailed {
                        assert(rest[k2 - 1] == rest[0]);
                    }
                }
            } else {
                assert(t[k1] == rest[k1 - 1]);
            }
        }
        assert forall|k1: int, k2: int|
            0 <= k1 < k2 <= fuel && (t[k1] is Answer || t[k1] is AllFailed) implies (#[trigger] t[k2])
            == (#[trigger] t[k1]) by {
            assert(t[k2] == rest[k2 - 1]);
            if k1 == 0 {
                if k2 - 1 > 0 {
                    assert(rest[k2 - 1] == rest[0]);
                }
            } else {
                assert(t[k1] == rest[k1 - 1]);
            }
        }
    }
}

/// The steps of a whole fallback run: its first step and `fuel` more.
pub open spec fn fallback_trace(outcomes: Seq<ProviderOutcome>, fuel: nat) -> Seq<Decision> {
    trace(outcomes, start_spec(outcomes.len()), fuel)
}

/// Fallback calls providers strictly in priority order and each at most
/// once; it calls a provider only when that provider reported itself
/// available and no provider before it has answered.
pub proof fn lemma_fallback_calls(outcomes: Seq<ProviderOutcome>, fuel: nat)
    ensures
        fallback_trace(outcomes, fuel).len() == fuel + 1,
        forall|k: int|
            0 <= k <= fuel && (#[trigger] fallback_trace(outcomes, fuel)[k]) is Call ==> {
                let i = fallback_trace(outcomes, fuel)[k]->Call_0;
                &&& i < outcomes.len()
                &&& !(outcomes[i as int] is Unavailable)
                &&& forall|j: int| 0 <= j < i ==> !((#[trigger] outcomes[j]) is Answered)
            },
        forall|k1: int, k2: int|
            0 <= k1 < k2 <= fuel && (#[trigger] fallback_trace(outcomes, fuel)[k1]) is Call && (
            #[trigger] fallback_trace(outcomes, fuel)[k2]) is Call ==> fallback_trace(
                outcomes,
                fuel,
            )[k1]->Call_0 < fallback_trace(outcomes, fuel)[k2]->Call_0,
{
    let d = start_spec(outcomes.len());
    lemma_trace_steps(outcomes, d, fuel);
    let t = fallback_trace(outcomes, fuel);
    assert forall|k1: int, k2: int|
        0 <= k1 < k2 <= fuel && (#[trigger] t[k1]) is Call && (#[trigger] t[k2]) is Call implies t[k1]->Call_0
        < t[k2]->Call_0 by {
        assert(rank(outcomes.len(), t[k1]) < rank(outcomes.len(), t[k2]));
    }
    assert forall|k: int| 0 <= k <= fuel && (#[trigger] t[k]) is Call implies {
        let i = t[k]->Call_0;
        &&& i < outcomes.len()
        &&& !(outcomes[i as int] is Unavailable)
        &&& forall|j: int| 0 <= j < i ==> !((#[trigger] outcomes[j]) is Answered)
    } by {
        assert(reachable(outcomes, t[k]));
    }
}

// ---------------------------------------------------------------------------
// The placeholder provider
// ---------------------------------------------------------------------------

/// How many characters of the prompt the placeholder provider echoes.
pub const DUMMY_PROMPT_CHARS: usize = 200;

/// The reply of the placeholder provider: a fixed label followed by the
/// first 200 characters of the prompt.
pub open spec fn dummy_answer_spec(prompt: Seq<char>) -> Seq<char> {
    "(dummy LLM) Answer based on prompt: "@ + take_spec(prompt, DUMMY_PROMPT_CHARS as nat)
}

/// The placeholder provider's reply to `prompt`.
pub fn dummy_answer(prompt: &str) -> (answer: String)
    ensures
        answer@ == dummy_answer_spec(prompt@),
{
    let mut answer = String::from_str("(dummy LLM) Answer based on prompt: ");
    let head = take_chars(prompt, DUMMY_PROMPT_CHARS);
    answer.append(head.as_str());
    answer
}


/// The placeholder reply is the fixed label followed by the first
/// `min(200, length)` characters of the prompt.
pub proof fn lemma_dummy_answer_echoes_prefix(prompt: Seq<char>)
    ensures
        ({
            let n: int = if prompt.len() < 200 {
                prompt.len() as int
            } else {
                200
            };
            dummy_answer_spec(prompt) == "(dummy LLM) Answer based on prompt: "@ + prompt.subrange(0, n)
        }),
{
    assert(prompt.subrange(0, prompt.len() as int) =~= prompt);
    assert(prompt.take(200) =~= prompt.subrange(0, 200));
}

} // verus!
