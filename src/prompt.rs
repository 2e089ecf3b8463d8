//! Rendering a context as one flattened prompt with section headers.
use vstd::prelude::*;
use crate::context::{messages_view, Context, Message, MessageView, Role};
use crate::skill::Skill;
use crate::text::{append, append_str, chars_of, join, join_exec, string_of};

verus! {

/// Builds the prompt for a context, optionally asking the model to answer in the tag dialect.
#[derive(Debug, Clone)]
pub struct PromptEngine {
    pub context: Context,
    pub structured_output: bool,
}

pub open spec fn default_instruction() -> Seq<char> {
    "You are a helpful assistant."@
}

/// How the model is asked to wrap its answer.
pub open spec fn output_format() -> Seq<char> {
    "\nWrap your entire response in an action tag:\n- <continue>your response</continue> if there are more steps to execute\n- <stop>your response</stop> if you have the final answer\n\nExample:\n<stop>The answer is 42.</stop>"@
}

pub open spec fn header(name: Seq<char>) -> Seq<char> {
    "## "@ + name
}

pub open spec fn sub_header(name: Seq<char>) -> Seq<char> {
    "### "@ + name
}

pub open spec fn role_name(r: Role) -> Seq<char> {
    match r {
        Role::System => "System"@,
        Role::User => "User"@,
        Role::Assistant => "Assistant"@,
        Role::Tool => "Tool"@,
    }
}

/// The instruction: the system prompt or a default, followed by the output format when asked.
pub open spec fn instruction_of(c: &Context, structured: bool) -> Seq<char> {
    let base = match c.system_prompt {
        Some(p) => p@,
        None => default_instruction(),
    };
    if structured {
        base + "\n"@ + output_format()
    } else {
        base
    }
}

/// The content of the first user message at or after `i`.
pub open spec fn first_user_from(hs: Seq<MessageView>, i: int) -> Option<Seq<char>>
    decreases hs.len() - i,
{
    if i < 0 || i >= hs.len() {
        None
    } else if hs[i].role == Role::User {
        Some(hs[i].content)
    } else {
        first_user_from(hs, i + 1)
    }
}

pub open spec fn skill_entry(s: Skill) -> Seq<char> {
    sub_header(s.name@) + "\n"@ + s.description@
}

pub open spec fn history_entry(m: MessageView) -> Seq<char> {
    sub_header(role_name(m.role)) + "\n"@ + m.content
}

/// The sections of the prompt in their fixed order: system, skills, question, chat
/// history, user.
pub open spec fn prompt_sections(c: &Context, structured: bool) -> Seq<Seq<char>> {
    let hs = messages_view(c.history@);
    seq![header("System"@) + "\n"@ + instruction_of(c, structured)] + (if c.skills@.len() > 0 {
        seq![
            header("Skills"@) + "\n"@ + join(
                c.skills@.map_values(|s: Skill| skill_entry(s)),
                "\n\n"@,
            ),
        ]
    } else {
        Seq::empty()
    }) + (match first_user_from(hs, 0) {
        Some(q) => seq![header("Question"@) + "\n"@ + q],
        None => Seq::empty(),
    }) + (if hs.len() > 0 {
        seq![
            join(
                seq![header("Chat History"@)] + hs.map_values(|m: MessageView| history_entry(m)),
                "\n\n"@,
            ),
        ]
    } else {
        Seq::empty()
    }) + (match c.user_message {
        Some(u) => seq![header("User"@) + "\n"@ + u@],
        None => Seq::empty(),
    })
}

/// The flattened prompt: the sections joined by blank lines.
pub open spec fn prompt_text(c: &Context, structured: bool) -> Seq<char> {
    join(prompt_sections(c, structured), "\n\n"@)
}

fn header_exec(name: &str) -> (r: Vec<char>)
    ensures
        r@ == header(name@),
{
    let mut v = chars_of("## ");
    append_str(&mut v, name);
    v
}

fn sub_header_exec(name: &str) -> (r: Vec<char>)
    ensures
        r@ == sub_header(name@),
{
    let mut v = chars_of("### ");
    append_str(&mut v, name);
    v
}

fn role_name_exec(r: Role) -> (s: &'static str)
    ensures
        s@ == role_name(r),
{
    match r {
        Role::System => "System",
        Role::User => "User",
        Role::Assistant => "Assistant",
        Role::Tool => "Tool",
    }
}

proof fn lemma_first_user_skip(hs: Seq<MessageView>, a: int, i: int)
    requires
        0 <= a <= i <= hs.len(),
        forall|j: int| a <= j < i ==> hs[j].role != Role::User,
    ensures
        first_user_from(hs, a) == first_user_from(hs, i),
    decreases i - a,
{
    if a < i {
        lemma_first_user_skip(hs, a + 1, i);
    }
}

fn first_user(hs: &Vec<Message>) -> (r: Option<&String>)
    ensures
        match r {
            Some(q) => first_user_from(messages_view(hs@), 0) == Some(q@),
            None => first_user_from(messages_view(hs@), 0) is None,
        },
{
    let ghost hv = messages_view(hs@);
    let mut i: usize = 0;
    while i < hs.len()
        invariant
            i <= hs.len(),
            hv == messages_view(hs@),
            forall|j: int| 0 <= j < i ==> hv[j].role != Role::User,
        decreases hs.len() - i,
    {
        if hs[i].role == Role::User {
            proof {
                lemma_first_user_skip(hv, 0, i as int);
            }
            return Some(&hs[i].content);
        }
        i = i + 1;
    }
    proof {
        lemma_first_user_skip(hv, 0, i as int);
    }
    None
}

impl PromptEngine {
    pub fn new(context: Context) -> (r: PromptEngine)
        ensures
            r.context == context,
            r.structured_output,
    {
        PromptEngine { context, structured_output: true }
    }

    /// The same engine, without the output-format instructions.
    pub fn without_structured_output(self) -> (r: PromptEngine)
        ensures
            r.context == self.context,
            !r.structured_output,
    {
        let mut e = self;
        e.structured_output = false;
        e
    }

    /// The system instruction: the context's system prompt or a default, followed by the
    /// output format when structured output is on.
    pub fn instruction(&self) -> (r: String)
        ensures
            r@ == instruction_of(&self.context, self.structured_output),
    {
        instruction_for(&self.context, self.structured_output)
    }

    /// The flattened prompt: system, skills, question, chat history and user sections, in
    /// that order, each history entry labelled with its role.
    pub fn render_text(&self) -> (r: String)
        ensures
            r@ == prompt_text(&self.context, self.structured_output),
    {
        render_prompt(&self.context, self.structured_output)
    }

    /// The prompt as the single user message that carries it.
    pub fn render(&self) -> (r: Vec<Message>)
        ensures
            messages_view(r@) == seq![
                MessageView { role: Role::User, content: prompt_text(&self.context, self.structured_output) },
            ],
    {
        let text = self.render_text();
        let mut r: Vec<Message> = Vec::new();
        r.push(Message { role: Role::User, content: text });
        assert(messages_view(r@) =~= seq![
            MessageView { role: Role::User, content: prompt_text(&self.context, self.structured_output) },
        ]);
        r
    }
}

/// The flattened prompt of a context, with the output-format instructions.
pub fn render(ctx: &Context) -> (r: Vec<Message>)
    ensures
        messages_view(r@) == seq![MessageView { role: Role::User, content: prompt_text(ctx, true) }],
{
    let text = render_prompt(ctx, true);
    let mut r: Vec<Message> = Vec::new();
    r.push(Message { role: Role::User, content: text });
    assert(messages_view(r@) =~= seq![MessageView { role: Role::User, content: prompt_text(ctx, true) }]);
    r
}

/// The system instruction: the context's system prompt or a default, followed by the
/// output format when structured output is on.
fn instruction_for(c: &Context, structured: bool) -> (r: String)
    ensures
        r@ == instruction_of(c, structured),
{
    let mut v = match &c.system_prompt {
        Some(p) => chars_of(p.as_str()),
        None => chars_of("You are a helpful assistant."),
    };
    if structured {
        append_str(&mut v, "\n");
        append_str(&mut v, "\nWrap your entire response in an action tag:\n- <continue>your response</continue> if there are more steps to execute\n- <stop>your response</stop> if you have the final answer\n\nExample:\n<stop>The answer is 42.</stop>");
    }
    string_of(&v)
}

/// The flattened prompt of `c`: system, skills, question, chat history and user sections, in
/// that order, each history entry labelled with its role.
pub fn render_prompt(c: &Context, structured: bool) -> (r: String)
    ensures
        r@ == prompt_text(c, structured),
{
    let mut sections: Vec<Vec<char>> = Vec::new();
    let mut sys = header_exec("System");
    append_str(&mut sys, "\n");
    let ins = instruction_for(c, structured);
    append_str(&mut sys, ins.as_str());
    sections.push(sys);
    let ghost s1 = sections@.map_values(|p: Vec<char>| p@);
    if c.skills.len() > 0 {
        let mut entries: Vec<Vec<char>> = Vec::new();
        let mut i: usize = 0;
        while i < c.skills.len()
            invariant
                i <= c.skills.len(),
                entries.len() == i,
                forall|k: int| 0 <= k < i ==> entries@[k]@ == skill_entry(c.skills@[k]),
            decreases c.skills.len() - i,
        {
            let mut e = sub_header_exec(c.skills[i].name.as_str());
            append_str(&mut e, "\n");
            append_str(&mut e, c.skills[i].description.as_str());
            entries.push(e);
            i = i + 1;
        }
        assert(entries@.map_values(|p: Vec<char>| p@) =~= c.skills@.map_values(
            |s: Skill| skill_entry(s),
        ));
        let mut sk = header_exec("Skills");
        append_str(&mut sk, "\n");
        let body = join_exec(&entries, "\n\n");
        append(&mut sk, &body);
        sections.push(sk);
    }
    let ghost s2 = sections@.map_values(|p: Vec<char>| p@);
    match first_user(&c.history) {
        Some(q) => {
            let mut qs = header_exec("Question");
            append_str(&mut qs, "\n");
            append_str(&mut qs, q.as_str());
            sections.push(qs);
        },
        None => {},
    }
    let ghost s3 = sections@.map_values(|p: Vec<char>| p@);
    if c.history.len() > 0 {
        let mut parts: Vec<Vec<char>> = Vec::new();
        parts.push(header_exec("Chat History"));
        let mut i: usize = 0;
        while i < c.history.len()
            invariant
                i <= c.history.len(),
                parts.len() == i + 1,
                parts@[0]@ == header("Chat History"@),
                forall|k: int|
                    0 <= k < i ==> parts@[k + 1]@ == history_entry(c.history@[k]@),
            decreases c.history.len() - i,
        {
            let mut e = sub_header_exec(role_name_exec(c.history[i].role));
            append_str(&mut e, "\n");
            append_str(&mut e, c.history[i].content.as_str());
            parts.push(e);
            i = i + 1;
        }
        assert(parts@.map_values(|p: Vec<char>| p@) =~= seq![header("Chat History"@)]
            + messages_view(c.history@).map_values(|m: MessageView| history_entry(m)));
        sections.push(join_exec(&parts, "\n\n"));
    }
    let ghost s4 = sections@.map_values(|p: Vec<char>| p@);
    match &c.user_message {
        Some(u) => {
            let mut us = header_exec("User");
            append_str(&mut us, "\n");
            append_str(&mut us, u.as_str());
            sections.push(us);
        },
        None => {},
    }
    assert(sections@.map_values(|p: Vec<char>| p@) =~= prompt_sections(c, structured));
    string_of(&join_exec(&sections, "\n\n"))
}



} // verus!
