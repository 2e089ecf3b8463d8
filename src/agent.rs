//! The orchestration loop as a state machine. The library decides each next move; the
//! caller performs it (a model call or a shell command) and reports what came back.
use vstd::prelude::*;
use crate::action::{Action, ActionView};
use crate::context::{messages, messages_view, opt_view, Context, Message, Step};
use crate::node::{answer_of, record_response, step_action};
use crate::response::{response, ResponseView};
use crate::skill::Skill;
use crate::structured::{entries_view, find_text, text_field, Entry, EntryView};
use crate::text::{
    append_str, chars_of, decimal, decimal_exec, join, join_exec, replace, replace_exec, string_of,
};
use vstd::string::StringExecFns;

verus! {

/// Where the loop stands.
#[derive(Debug, Clone, Copy, PartialEq, Eq, Structural)]
pub enum Phase {
    Idle,
    Planning,
    Thinking,
    AwaitingToolResult,
    Completed,
    Aborted,
}

/// A call that the current state does not allow.
#[derive(Debug, Clone, Copy, PartialEq, Eq, Structural)]
pub enum NodeError {
    /// An `Execute` action named no command.
    MissingCommand,
    /// A model output came while none was awaited.
    NotAwaitingOutput,
    /// A command result came while none was awaited.
    NotAwaitingObservation,
}

/// How a run ended.
#[derive(Debug, Clone, PartialEq)]
pub struct Outcome {
    /// The model stopped on its own, rather than the turn budget or an undispatched tool.
    pub completed: bool,
    pub action: Action,
    pub answer: String,
}

/// What the caller must do next.
#[derive(Debug, Clone)]
pub enum Directive {
    /// Call the model with these messages and report its output.
    Query(Vec<Message>),
    /// Run this shell command and report what it printed.
    RunCommand(String),
    /// The run is over.
    Finished(Outcome),
    /// The call was refused.
    Fault(NodeError),
}

/// The orchestration loop: a planning call, then thinking calls until the model stops
/// or the turn budget runs out, with commands and skills dispatched in between.
#[derive(Debug, Clone)]
pub struct Agent {
    pub plan_prompt: String,
    pub thinking_prompt: String,
    pub max_iterations: usize,
    pub turns: usize,
    pub phase: Phase,
    pub question: String,
}

pub open spec fn awaiting_output(p: Phase) -> bool {
    p == Phase::Planning || p == Phase::Thinking
}

/// The text of a field, or nothing when the field is absent or not a string.
pub open spec fn field_or_empty(es: Seq<EntryView>, key: Seq<char>) -> Seq<char> {
    match text_field(es, key) {
        Some(t) => t,
        None => Seq::empty(),
    }
}

/// The planning prompt for a question.
pub open spec fn plan_text(template: Seq<char>, question: Seq<char>, max: nat) -> Seq<char> {
    replace(replace(template, "{question}"@, question), "{max_turns}"@, decimal(max))
}

/// The thinking prompt, filled from the fields of the latest step.
pub open spec fn thinking_text(
    template: Seq<char>,
    question: Seq<char>,
    fields: Seq<EntryView>,
) -> Seq<char> {
    replace(
        replace(
            replace(
                replace(template, "{question}"@, question),
                "{task}"@,
                field_or_empty(fields, "task"@),
            ),
            "{todos}"@,
            field_or_empty(fields, "todos"@),
        ),
        "{thinking}"@,
        field_or_empty(fields, "thinking"@),
    )
}

/// The answer of a response that stops: its `answer` field, else its text.
pub open spec fn final_answer(rv: ResponseView) -> Seq<char> {
    match answer_of(rv) {
        Some(a) => a,
        None => rv.text,
    }
}

/// The best partial answer in a trajectory: the latest observation, else the latest thought.
pub open spec fn partial_answer(steps: Seq<Step>) -> Seq<char> {
    if steps.len() == 0 {
        Seq::empty()
    } else {
        match steps.last().observation {
            Some(o) => o@,
            None => match steps.last().thought {
                Some(t) => t@,
                None => Seq::empty(),
            },
        }
    }
}

/// The script of the first skill named `name`, or a marker that says it is missing.
pub open spec fn skill_body_from(skills: Seq<Skill>, name: Seq<char>, i: int) -> Seq<char>
    decreases skills.len() - i,
{
    if i < 0 || i >= skills.len() {
        "[skill not found: "@ + name + "]"@
    } else if skills[i].name@ == name {
        skills[i].script@
    } else {
        skill_body_from(skills, name, i + 1)
    }
}

/// The instructions of the named skills, in order, separated by blank lines.
pub open spec fn skill_observation(skills: Seq<Skill>, names: Seq<Seq<char>>) -> Seq<char> {
    join(names.map_values(|n: Seq<char>| skill_body_from(skills, n, 0)), "\n\n"@)
}

proof fn lemma_skill_body_skip(skills: Seq<Skill>, name: Seq<char>, a: int, i: int)
    requires
        0 <= a <= i <= skills.len(),
        forall|j: int| a <= j < i ==> skills[j].name@ != name,
    ensures
        skill_body_from(skills, name, a) == skill_body_from(skills, name, i),
    decreases i - a,
{
    if a < i {
        lemma_skill_body_skip(skills, name, a + 1, i);
    }
}

fn skill_body(skills: &Vec<Skill>, name: &String) -> (r: Vec<char>)
    ensures
        r@ == skill_body_from(skills@, name@, 0),
{
    let mut i: usize = 0;
    while i < skills.len()
        invariant
            i <= skills.len(),
            forall|j: int| 0 <= j < i ==> skills@[j].name@ != name@,
        decreases skills.len() - i,
    {
        if skills[i].name == *name {
            proof {
                lemma_skill_body_skip(skills@, name@, 0, i as int);
            }
            return chars_of(skills[i].script.as_str());
        }
        i = i + 1;
    }
    proof {
        lemma_skill_body_skip(skills@, name@, 0, i as int);
    }
    let mut v = chars_of("[skill not found: ");
    append_str(&mut v, name.as_str());
    append_str(&mut v, "]");
    v
}

/// The instructions of the named skills, in order, with a marker for each missing one.
pub fn resolve_skills(skills: &Vec<Skill>, names: &Vec<String>) -> (r: String)
    ensures
        r@ == skill_observation(skills@, names@.map_values(|n: String| n@)),
{
    let mut bodies: Vec<Vec<char>> = Vec::new();
    let mut i: usize = 0;
    while i < names.len()
        invariant
            i <= names.len(),
            bodies.len() == i,
            forall|k: int| 0 <= k < i ==> bodies@[k]@ == skill_body_from(skills@, names@[k]@, 0),
        decreases names.len() - i,
    {
        bodies.push(skill_body(skills, &names[i]));
        i = i + 1;
    }
    assert(bodies@.map_values(|p: Vec<char>| p@) =~= names@.map_values(|n: String| n@).map_values(
        |n: Seq<char>| skill_body_from(skills@, n, 0),
    ));
    string_of(&join_exec(&bodies, "\n\n"))
}

fn field_or_empty_exec(es: &Vec<Entry>, key: &str) -> (r: Vec<char>)
    ensures
        r@ == field_or_empty(entries_view(es@), key@),
{
    match find_text(es, key) {
        Some(t) => chars_of(t.as_str()),
        None => Vec::new(),
    }
}

fn partial_answer_exec(steps: &Vec<Step>) -> (r: String)
    ensures
        r@ == partial_answer(steps@),
{
    let n = steps.len();
    if n == 0 {
        return String::new();
    }
    match &steps[n - 1].observation {
        Some(o) => o.clone(),
        None => match &steps[n - 1].thought {
            Some(t) => t.clone(),
            None => String::new(),
        },
    }
}

impl Agent {
    /// An idle loop with the standard prompts and a budget of `max_iterations` thinking turns.
    pub fn new(max_iterations: usize) -> (r: Agent)
        ensures
            r.wf(),
            r.max_iterations == max_iterations,
            r.turns == 0,
            r.phase == Phase::Idle,
    {
        Agent {
            plan_prompt: String::from_str("You are a planning assistant.\n\n## Question\n{question}\n\n## Instructions\nBreak down the question into a clear todo list with actionable tasks.\n- You have at most {max_turns} turns to complete all tasks. Plan efficiently.\n\nOutput EXACTLY ONE JSON block:\n\n{\n  \"task\": \"the first task to execute\",\n  \"thinking\": \"your reasoning about how to approach this question\",\n  \"todos\": \"- [ ] task 1\\n- [ ] task 2\",\n  \"action\": \"continue\"\n}\n\n- Use \"continue\" if there are tasks to execute\n- Use \"stop\" if the answer is immediately obvious (include \"answer\" field)"),
            thinking_prompt: String::from_str("You are a thinking assistant.\n\n## Question\n{question}\n\n## Current Task\n{task}\n\n## Todo List\n{todos}\n\n## Previous Thinking\n{thinking}\n\n## Instructions\nExecute the current task. Update the todo list and decide the next step.\n\nOutput EXACTLY ONE JSON block:\n\n{\n  \"task\": \"next task to execute\",\n  \"thinking\": \"your detailed reasoning and result for the current task\",\n  \"todos\": \"- [x] done task\\n- [ ] remaining task\",\n  \"action\": \"continue\"\n}\n\n- Use \"continue\" if there are remaining tasks\n- Use \"stop\" when all tasks are done (include \"answer\" field with the final answer)"),
            max_iterations,
            turns: 0,
            phase: Phase::Idle,
            question: String::new(),
        }
    }

    /// The same loop with another turn budget.
    pub fn with_max_turns(self, max_turns: usize) -> (r: Agent)
        ensures
            r.wf(),
            r.max_iterations == max_turns,
            r.turns == 0,
            r.phase == Phase::Idle,
            r.plan_prompt == self.plan_prompt,
            r.thinking_prompt == self.thinking_prompt,
    {
        let mut a = self;
        a.max_iterations = max_turns;
        a.turns = 0;
        a.phase = Phase::Idle;
        a
    }

    /// The thinking turns stay within the budget.
    pub open spec fn wf(&self) -> bool {
        self.turns <= self.max_iterations
    }

    /// How many model calls the run has asked for so far.
    pub open spec fn invocations(&self) -> nat {
        if self.phase == Phase::Idle {
            0
        } else {
            (self.turns + 1) as nat
        }
    }

    /// Starts a run on the context's user message: sets the planning prompt, opens a step
    /// for the query and asks for the planning call.
    pub fn start(&mut self, ctx: &mut Context) -> (r: Directive)
        ensures
            final(self).wf(),
            final(self).phase == Phase::Planning,
            final(self).turns == 0,
            final(self).invocations() == 1,
            final(self).max_iterations == old(self).max_iterations,
            final(self).plan_prompt == old(self).plan_prompt,
            final(self).thinking_prompt == old(self).thinking_prompt,
            final(self).question@ == match old(ctx).user_message {
                Some(u) => u@,
                None => Seq::empty(),
            },
            opt_view(final(ctx).system_prompt) == Some(
                plan_text(
                    old(self).plan_prompt@,
                    final(self).question@,
                    old(self).max_iterations as nat,
                ),
            ),
            final(ctx).history == old(ctx).history,
            final(ctx).user_message == old(ctx).user_message,
            final(ctx).skills == old(ctx).skills,
            final(ctx).trajectory@.len() == old(ctx).trajectory@.len() + 1,
            r matches Directive::Query(ms) && messages_view(ms@) == messages(&*final(ctx)),
    {
        self.question = match &ctx.user_message {
            Some(u) => u.clone(),
            None => String::new(),
        };
        let t = chars_of(self.plan_prompt.as_str());
        let q = chars_of(self.question.as_str());
        let step = replace_exec(&t, &chars_of("{question}"), &q);
        let filled = replace_exec(&step, &chars_of("{max_turns}"), &decimal_exec(self.max_iterations));
        let prompt = string_of(&filled);
        ctx.set_system_prompt(prompt.as_str());
        let question = self.question.clone();
        ctx.init_step(question.as_str());
        self.turns = 0;
        self.phase = Phase::Planning;
        Directive::Query(ctx.to_messages())
    }

    /// Moves to the next thinking call, or ends the run when the budget is spent.
    fn advance(&mut self, ctx: &mut Context) -> (r: Directive)
        requires
            old(self).wf(),
        ensures
            final(self).wf(),
            final(self).max_iterations == old(self).max_iterations,
            final(self).plan_prompt == old(self).plan_prompt,
            final(self).thinking_prompt == old(self).thinking_prompt,
            final(self).question == old(self).question,
            final(ctx).history == old(ctx).history,
            final(ctx).trajectory == old(ctx).trajectory,
            final(ctx).user_message == old(ctx).user_message,
            final(ctx).skills == old(ctx).skills,
            final(ctx).action == old(ctx).action,
            old(self).turns < old(self).max_iterations ==> {
                &&& final(self).turns == old(self).turns + 1
                &&& final(self).phase == Phase::Thinking
                &&& r matches Directive::Query(ms) && messages_view(ms@) == messages(
                    &*final(ctx),
                )
                &&& old(ctx).trajectory@.len() > 0 ==> opt_view(final(ctx).system_prompt)
                    == Some(
                    thinking_text(
                        old(self).thinking_prompt@,
                        old(self).question@,
                        entries_view(old(ctx).trajectory@.last().parameters@),
                    ),
                )
            },
            old(self).turns >= old(self).max_iterations ==> {
                &&& final(self).turns == old(self).turns
                &&& final(self).phase == Phase::Aborted
                &&& r matches Directive::Finished(o) && !o.completed && o.action@
                    == old(ctx).action@ && o.answer@ == partial_answer(old(ctx).trajectory@)
            },
    {
        if self.turns >= self.max_iterations {
            self.phase = Phase::Aborted;
            let answer = partial_answer_exec(&ctx.trajectory);
            return Directive::Finished(
                Outcome { completed: false, action: ctx.action.duplicate(), answer },
            );
        }
        let n = ctx.trajectory.len();
        let (task, todos, thinking) = if n > 0 {
            let ps = &ctx.trajectory[n - 1].parameters;
            (
                field_or_empty_exec(ps, "task"),
                field_or_empty_exec(ps, "todos"),
                field_or_empty_exec(ps, "thinking"),
            )
        } else {
            (Vec::new(), Vec::new(), Vec::new())
        };
        let t = chars_of(self.thinking_prompt.as_str());
        let q = chars_of(self.question.as_str());
        let s1 = replace_exec(&t, &chars_of("{question}"), &q);
        let s2 = replace_exec(&s1, &chars_of("{task}"), &task);
        let s3 = replace_exec(&s2, &chars_of("{todos}"), &todos);
        let s4 = replace_exec(&s3, &chars_of("{thinking}"), &thinking);
        let prompt = string_of(&s4);
        ctx.set_system_prompt(prompt.as_str());
        self.turns = self.turns + 1;
        self.phase = Phase::Thinking;
        Directive::Query(ctx.to_messages())
    }

    /// Takes a model output: records it, then ends the run on `Stop` or on an action that
    /// is not dispatched here, asks for a command on `Execute`, answers `UseSkill` with the
    /// skills' instructions, and otherwise moves to the next thinking call.
    pub fn on_output(&mut self, ctx: &mut Context, output: &str) -> (r: Directive)
        requires
            old(self).wf(),
        ensures
            final(self).wf(),
            final(self).turns >= old(self).turns,
            final(self).max_iterations == old(self).max_iterations,
            final(self).plan_prompt == old(self).plan_prompt,
            final(self).thinking_prompt == old(self).thinking_prompt,
            final(self).question == old(self).question,
            !awaiting_output(old(self).phase) ==> {
                &&& r matches Directive::Fault(e) && e == NodeError::NotAwaitingOutput
                &&& *final(self) == *old(self)
                &&& *final(ctx) == *old(ctx)
            },
            awaiting_output(old(self).phase) ==> {
                let rv = response(output@);
                let a = step_action(rv);
                &&& final(ctx).action@ == a
                &&& final(ctx).trajectory@.len() == old(ctx).trajectory@.len() + 1
                &&& final(ctx).history@.len() == old(ctx).history@.len() + 1
                &&& a is Stop ==> {
                    &&& final(self).phase == Phase::Completed
                    &&& final(self).turns == old(self).turns
                    &&& r matches Directive::Finished(o) && o.completed && o.action@ == a
                        && o.answer@ == final_answer(rv)
                }
                &&& a matches ActionView::Execute(Some(c)) ==> {
                    &&& final(self).phase == Phase::AwaitingToolResult
                    &&& final(self).turns == old(self).turns
                    &&& r matches Directive::RunCommand(cmd) && cmd@ == c
                }
                &&& a matches ActionView::Execute(None) ==> {
                    &&& final(self).phase == Phase::Aborted
                    &&& r matches Directive::Fault(e) && e == NodeError::MissingCommand
                }
                &&& (a is Continue || a is UseSkill) ==> {
                    &&& old(self).turns < old(self).max_iterations ==> {
                        &&& final(self).turns == old(self).turns + 1
                        &&& final(self).phase == Phase::Thinking
                        &&& r matches Directive::Query(ms) && messages_view(ms@) == messages(
                            &*final(ctx),
                        )
                    }
                    &&& old(self).turns >= old(self).max_iterations ==> {
                        &&& final(self).turns == old(self).turns
                        &&& final(self).phase == Phase::Aborted
                        &&& r matches Directive::Finished(o) && !o.completed && o.action@ == a
                    }
                }
                &&& (a is CallTool || a is Pending) ==> {
                    &&& final(self).phase == Phase::Completed
                    &&& r matches Directive::Finished(o) && !o.completed && o.action@ == a
                        && o.answer@ == rv.text
                }
            },
    {
        if !(self.phase == Phase::Planning || self.phase == Phase::Thinking) {
            return Directive::Fault(NodeError::NotAwaitingOutput);
        }
        let action = record_response(ctx, output);
        let ghost rv = response(output@);
        match action {
            Action::Stop => {
                self.phase = Phase::Completed;
                let n = ctx.trajectory.len();
                let answer = match &ctx.trajectory[n - 1].answer {
                    Some(a) => a.clone(),
                    None => match &ctx.trajectory[n - 1].thought {
                        Some(t) => t.clone(),
                        None => String::new(),
                    },
                };
                Directive::Finished(Outcome { completed: true, action: Action::Stop, answer })
            },
            Action::Execute(Some(cmd)) => {
                self.phase = Phase::AwaitingToolResult;
                Directive::RunCommand(cmd)
            },
            Action::Execute(None) => {
                self.phase = Phase::Aborted;
                Directive::Fault(NodeError::MissingCommand)
            },
            Action::UseSkill(names) => {
                let observation = resolve_skills(&ctx.skills, &names);
                ctx.set_last_observation(observation.as_str());
                self.advance(ctx)
            },
            Action::Continue => self.advance(ctx),
            other => {
                self.phase = Phase::Completed;
                let n = ctx.trajectory.len();
                let answer = match &ctx.trajectory[n - 1].thought {
                    Some(t) => t.clone(),
                    None => String::new(),
                };
                Directive::Finished(Outcome { completed: false, action: other, answer })
            },
        }
    }

    /// Takes what a command printed: records it as the latest step's observation and moves
    /// to the next thinking call, or ends the run when the budget is spent.
    pub fn on_observation(&mut self, ctx: &mut Context, observation: &str) -> (r: Directive)
        requires
            old(self).wf(),
        ensures
            final(self).wf(),
            final(self).turns >= old(self).turns,
            final(self).max_iterations == old(self).max_iterations,
            final(self).plan_prompt == old(self).plan_prompt,
            final(self).thinking_prompt == old(self).thinking_prompt,
            final(self).question == old(self).question,
            old(self).phase != Phase::AwaitingToolResult ==> {
                &&& r matches Directive::Fault(e) && e == NodeError::NotAwaitingObservation
                &&& *final(self) == *old(self)
                &&& *final(ctx) == *old(ctx)
            },
            old(self).phase == Phase::AwaitingToolResult ==> {
                &&& final(ctx).history == old(ctx).history
                &&& final(ctx).trajectory@.len() == old(ctx).trajectory@.len()
                &&& old(ctx).trajectory@.len() > 0 ==> opt_view(
                    final(ctx).trajectory@.last().observation,
                ) == Some(observation@)
                &&& old(self).turns < old(self).max_iterations ==> {
                    &&& final(self).turns == old(self).turns + 1
                    &&& final(self).phase == Phase::Thinking
                    &&& r matches Directive::Query(ms) && messages_view(ms@) == messages(
                        &*final(ctx),
                    )
                }
                &&& old(self).turns >= old(self).max_iterations ==> {
                    &&& final(self).phase == Phase::Aborted
                    &&& r matches Directive::Finished(o) && !o.completed
                }
            },
    {
        if self.phase != Phase::AwaitingToolResult {
            return Directive::Fault(NodeError::NotAwaitingObservation);
        }
        ctx.set_last_observation(observation);
        self.advance(ctx)
    }

    /// Runs the loop over scripted model outputs, taken in order, and reports each command
    /// as having printed `observation`. Returns how the run stands when the outputs run out
    /// or the run ends, and how many outputs it took. A run never takes more than one
    /// planning call and `max_iterations` thinking calls; when every output asks to
    /// continue and there are enough of them, it takes exactly that many and is cut off.
    pub fn replay(&mut self, ctx: &mut Context, outputs: &Vec<String>, observation: &str) -> (r: (
        Directive,
        usize,
    ))
        requires
            old(self).wf(),
        ensures
            r.1 <= outputs.len(),
            r.1 <= old(self).max_iterations + 1,
            outputs.len() > 0 ==> r.1 >= 1,
            r.0 is Query ==> r.1 == outputs.len() && awaiting_output(final(self).phase),
            r.0 is Finished ==> final(self).phase == Phase::Completed || final(self).phase
                == Phase::Aborted,
            !(r.0 is RunCommand),
            final(self).wf(),
            final(self).max_iterations == old(self).max_iterations,
            (forall|i: int|
                0 <= i < outputs.len() ==> step_action(response(#[trigger] outputs@[i]@))
                    is Continue) ==> {
                &&& outputs.len() > old(self).max_iterations ==> {
                    &&& r.1 == old(self).max_iterations + 1
                    &&& final(self).phase == Phase::Aborted
                    &&& r.0 matches Directive::Finished(o) && !o.completed
                }
                &&& outputs.len() <= old(self).max_iterations ==> r.1 == outputs.len()
            },
    {
        let ghost all_continue = forall|i: int|
            0 <= i < outputs.len() ==> step_action(response(#[trigger] outputs@[i]@)) is Continue;
        let ghost max = self.max_iterations;
        let mut d = self.start(ctx);
        let mut used: usize = 0;
        loop
            invariant
                self.wf(),
                self.max_iterations == max,
                max == old(self).max_iterations,
                used <= outputs.len(),
                all_continue == forall|i: int|
                    0 <= i < outputs.len() ==> step_action(response(#[trigger] outputs@[i]@))
                        is Continue,
                d is Query ==> awaiting_output(self.phase) && used == self.turns,
                d is RunCommand ==> self.phase == Phase::AwaitingToolResult && used == self.turns
                    + 1,
                d is Finished ==> used <= self.turns + 1 && used >= 1 && (self.phase
                    == Phase::Completed || self.phase == Phase::Aborted),
                d is Fault ==> used <= self.turns + 1 && used >= 1,
                all_continue ==> (d is Query || (d matches Directive::Finished(o) && !o.completed
                    && used == max + 1 && self.phase == Phase::Aborted)),
            decreases outputs.len() - used, if d is RunCommand { 1int } else { 0int },
        {
            match d {
                Directive::Query(_) => {
                    if used < outputs.len() {
                        d = self.on_output(ctx, outputs[used].as_str());
                        used = used + 1;
                    } else {
                        return (d, used);
                    }
                },
                Directive::RunCommand(_) => {
                    d = self.on_observation(ctx, observation);
                },
                _ => {
                    return (d, used);
                },
            }
        }
    }
}

} // verus!
