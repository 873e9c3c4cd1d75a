use tg_ai_bot_rust::llm_pool::{dummy_answer, FallbackStep, LLMPool};
use Behaviour::{Answers, Fails, Unavailable};

#[derive(Clone, Copy)]
enum Behaviour {
    Unavailable,
    Fails,
    Answers(&'static str),
}

/// Runs the pool against providers that behave as given; returns the answer
/// and the providers that were called, in order.
fn run(behaviours: &[Behaviour]) -> (Option<String>, Vec<usize>) {
    let pool = LLMPool::new(behaviours.to_vec());
    let mut called = Vec::new();
    let mut step = pool.first_step();
    loop {
        step = match step {
            FallbackStep::CheckAvailability(i) => {
                let available = !matches!(pool.provider(i), Behaviour::Unavailable);
                pool.after_availability(i, available)
            }
            FallbackStep::Call(i) => {
                called.push(i);
                let reply = match pool.provider(i) {
                    Behaviour::Answers(a) => Some(a.to_string()),
                    _ => None,
                };
                pool.after_call(i, reply)
            }
            FallbackStep::Answer(a) => return (Some(a), called),
            FallbackStep::AllFailed => return (None, called),
        }
    }
}

#[test]
fn first_available_answer_wins() {
    let (answer, called) = run(&[Unavailable, Fails, Answers("b"), Answers("c")]);
    assert_eq!(answer.as_deref(), Some("b"));
    assert_eq!(called, vec![1, 2]);
}

#[test]
fn all_failing_providers_fail_the_pool() {
    let (answer, called) = run(&[Fails, Unavailable, Fails]);
    assert_eq!(answer, None);
    assert_eq!(called, vec![0, 2]);
}

#[test]
fn empty_pool_fails_at_once() {
    let (answer, called) = run(&[]);
    assert_eq!(answer, None);
    assert!(called.is_empty());
}

#[test]
fn unavailable_providers_are_never_called() {
    let (answer, called) = run(&[Unavailable, Unavailable, Answers("z")]);
    assert_eq!(answer.as_deref(), Some("z"));
    assert_eq!(called, vec![2]);
}

#[test]
fn pool_reports_its_size() {
    let pool = LLMPool::new(vec![1u8, 2, 3]);
    assert_eq!(pool.len(), 3);
    assert_eq!(*pool.provider(1), 2);
}

#[test]
fn dummy_answer_echoes_the_prompt() {
    assert_eq!(dummy_answer("hi"), "(dummy LLM) Answer based on prompt: hi");
    let long: String = "é".repeat(250);
    let answer = dummy_answer(&long);
    assert_eq!(answer, format!("(dummy LLM) Answer based on prompt: {}", "é".repeat(200)));
}
