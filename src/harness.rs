//! The shell-command node: which command to run, and how its result reads as an observation.
use vstd::prelude::*;
use crate::action::{Action, ActionView};
use crate::agent::NodeError;
use crate::context::Context;
use crate::text::{append, append_str, chars_of, decimal, decimal_exec, string_of};
use vstd::string::StringExecFns;

verus! {

/// Runs the command that the latest step staged; the spawning itself is the caller's.
#[derive(Debug, Clone, Copy)]
pub struct Harness;

/// The observation recorded when the user refuses to run a command.
pub open spec fn denied_text() -> Seq<char> {
    "[denied] user rejected the command"@
}

/// An integer in decimal, with a minus sign when negative.
pub open spec fn int_text(n: int) -> Seq<char> {
    if n < 0 {
        "-"@ + decimal((-n) as nat)
    } else {
        decimal(n as nat)
    }
}

/// What a finished command reads as: its output, then `[stderr] ...` when it wrote to
/// standard error, then `[exit code: n]` when it failed (`-1` when it had no code).
pub open spec fn observation_text(
    stdout: Seq<char>,
    stderr: Seq<char>,
    code: Option<i32>,
    success: bool,
) -> Seq<char> {
    stdout + (if stderr.len() > 0 {
        "[stderr] "@ + stderr
    } else {
        Seq::empty()
    }) + (if !success {
        "[exit code: "@ + int_text(
            match code {
                Some(c) => c as int,
                None => -1,
            },
        ) + "]"@
    } else {
        Seq::empty()
    })
}

fn int_text_exec(n: i32) -> (r: Vec<char>)
    ensures
        r@ == int_text(n as int),
{
    if n < 0 {
        let m = (-(n as i64)) as usize;
        let mut v = chars_of("-");
        let d = decimal_exec(m);
        append(&mut v, &d);
        v
    } else {
        decimal_exec(n as usize)
    }
}

impl Harness {
    /// The command that the latest step asks to run.
    pub fn prepare(ctx: &Context) -> (r: Result<String, NodeError>)
        ensures
            match r {
                Ok(cmd) => ctx.trajectory@.len() > 0 && ctx.trajectory@.last().action@
                    == ActionView::Execute(Some(cmd@)),
                Err(e) => e == NodeError::MissingCommand && !(ctx.trajectory@.len() > 0
                    && ctx.trajectory@.last().action@ is Execute
                    && ctx.trajectory@.last().action@->Execute_0 is Some),
            },
    {
        let n = ctx.trajectory.len();
        if n == 0 {
            return Err(NodeError::MissingCommand);
        }
        match &ctx.trajectory[n - 1].action {
            Action::Execute(Some(cmd)) => Ok(cmd.clone()),
            _ => Err(NodeError::MissingCommand),
        }
    }

    /// What a finished command reads as.
    pub fn observation(stdout: &str, stderr: &str, code: Option<i32>, success: bool) -> (r:
        String)
        ensures
            r@ == observation_text(stdout@, stderr@, code, success),
    {
        let mut v = chars_of(stdout);
        let e = chars_of(stderr);
        if e.len() > 0 {
            append_str(&mut v, "[stderr] ");
            append(&mut v, &e);
        }
        if !success {
            append_str(&mut v, "[exit code: ");
            let c = match code {
                Some(c) => c,
                None => -1,
            };
            let d = int_text_exec(c);
            append(&mut v, &d);
            append_str(&mut v, "]");
        }
        string_of(&v)
    }

    /// The observation for a command the user refused.
    pub fn denied() -> (r: String)
        ensures
            r@ == denied_text(),
    {
        String::from_str("[denied] user rejected the command")
    }

    /// Whether a confirmation answer allows the command: `y` or `Y`, around white space.
    pub fn confirmed(answer: &str) -> (r: bool)
        ensures
            r == (crate::text::trim(answer@) == "y"@ || crate::text::trim(answer@) == "Y"@),
    {
        let t = crate::text::trim_exec(&chars_of(answer));
        crate::text::same_chars(&t, &chars_of("y")) || crate::text::same_chars(&t, &chars_of("Y"))
    }
}

} // verus!
