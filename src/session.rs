//! Decisions of an interactive session and of a retried model call; the waiting, reading
//! and printing are the caller's.
use vstd::prelude::*;
use crate::text::{chars_of, same_chars, string_of, trim, trim_exec};

verus! {

/// What a line typed at the prompt asks for.
#[derive(Debug, Clone, PartialEq)]
pub enum ReplInput {
    /// `exit` or `quit`: end the session.
    Quit,
    /// Nothing but white space: ask again.
    Empty,
    /// A message for the model, trimmed.
    Prompt(String),
}

/// Reads a line typed at the prompt.
pub fn read_input(line: &str) -> (r: ReplInput)
    ensures
        ({
            let t = trim(line@);
            match r {
                ReplInput::Quit => t == "exit"@ || t == "quit"@,
                ReplInput::Empty => t.len() == 0,
                ReplInput::Prompt(p) => p@ == t && t.len() > 0 && t != "exit"@ && t != "quit"@,
            }
        }),
{
    let t = trim_exec(&chars_of(line));
    if same_chars(&t, &chars_of("exit")) || same_chars(&t, &chars_of("quit")) {
        ReplInput::Quit
    } else if t.len() == 0 {
        ReplInput::Empty
    } else {
        ReplInput::Prompt(string_of(&t))
    }
}

/// An opt-in policy for retrying a failed model call after a fixed wait.
#[derive(Debug, Clone, Copy, PartialEq, Eq)]
pub struct RetryPolicy {
    pub max_retries: usize,
    pub wait_secs: u64,
}

impl RetryPolicy {
    /// No retry: the first failure is final.
    pub fn none() -> (r: RetryPolicy)
        ensures
            r.max_retries == 0,
            r.wait_secs == 0,
    {
        RetryPolicy { max_retries: 0, wait_secs: 0 }
    }

    pub fn new(max_retries: usize, wait_secs: u64) -> (r: RetryPolicy)
        ensures
            r.max_retries == max_retries,
            r.wait_secs == wait_secs,
    {
        RetryPolicy { max_retries, wait_secs }
    }

    /// After a failure that followed `retries` retries, the seconds to wait before trying
    /// again, or `None` when the failure is final. So a call is tried at most
    /// `max_retries + 1` times.
    pub fn after_failure(&self, retries: usize) -> (r: Option<u64>)
        ensures
            r == if retries < self.max_retries {
                Some(self.wait_secs)
            } else {
                None::<u64>
            },
    {
        if retries < self.max_retries {
            Some(self.wait_secs)
        } else {
            None
        }
    }
}

} // verus!
