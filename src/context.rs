//! The conversation and trajectory state threaded through every step.
use vstd::prelude::*;
use crate::action::Action;
use crate::skill::{hint, Skill};
use crate::structured::Entry;
use crate::action::strings_view;
use crate::text::{
    append, append_str, chars_of, join, join_exec, lemma_join_starts_with_first, string_of,
};
use vstd::string::StringExecFns;

verus! {

/// A tool that the model may be told about.
#[derive(Debug, Clone)]
pub struct Tool {
    pub name: String,
    pub description: String,
}

/// Who said a message.
#[derive(Debug, Clone, Copy, PartialEq, Eq, Structural)]
pub enum Role {
    System,
    User,
    Assistant,
    Tool,
}

/// One entry of the conversation.
#[derive(Debug, Clone)]
pub struct Message {
    pub role: Role,
    pub content: String,
}

pub struct MessageView {
    pub role: Role,
    pub content: Seq<char>,
}

impl View for Message {
    type V = MessageView;

    open spec fn view(&self) -> MessageView {
        MessageView { role: self.role, content: self.content@ }
    }
}

pub open spec fn messages_view(ms: Seq<Message>) -> Seq<MessageView> {
    ms.map_values(|m: Message| m@)
}

impl Message {
    pub fn system(content: &str) -> (r: Message)
        ensures
            r@ == (MessageView { role: Role::System, content: content@ }),
    {
        Message { role: Role::System, content: String::from_str(content) }
    }

    pub fn user(content: &str) -> (r: Message)
        ensures
            r@ == (MessageView { role: Role::User, content: content@ }),
    {
        Message { role: Role::User, content: String::from_str(content) }
    }

    pub fn assistant(content: &str) -> (r: Message)
        ensures
            r@ == (MessageView { role: Role::Assistant, content: content@ }),
    {
        Message { role: Role::Assistant, content: String::from_str(content) }
    }

    pub fn duplicate(&self) -> (r: Message)
        ensures
            r@ == self@,
    {
        Message { role: self.role, content: self.content.clone() }
    }
}

/// What kind of thinking a step records.
#[derive(Debug, Clone, Copy, PartialEq, Eq, Structural)]
pub enum ThoughtKind {
    Unspecified,
    Query,
    Plan,
    Reasoning,
}

/// One recorded step of the trajectory.
#[derive(Debug, Clone)]
pub struct Step {
    pub kind: ThoughtKind,
    pub thought: Option<String>,
    pub action: Action,
    pub parameters: Vec<Entry>,
    pub observation: Option<String>,
    pub answer: Option<String>,
}

/// The state of one session: prompt material, the conversation and the trajectory.
#[derive(Debug, Clone)]
pub struct Context {
    pub system_prompt: Option<String>,
    pub documents: Vec<String>,
    pub memory: Vec<String>,
    pub tools: Vec<Tool>,
    pub skills: Vec<Skill>,
    pub user_message: Option<String>,
    pub history: Vec<Message>,
    pub trajectory: Vec<Step>,
    pub action: Action,
}

pub open spec fn opt_view(o: Option<String>) -> Option<Seq<char>> {
    match o {
        Some(s) => Some(s@),
        None => None,
    }
}

/// `a` and `b` hold the same prompt material: system prompt, user message, documents,
/// memory, tools and skills.
pub open spec fn same_setup(a: &Context, b: &Context) -> bool {
    &&& a.system_prompt == b.system_prompt
    &&& a.user_message == b.user_message
    &&& a.documents == b.documents
    &&& a.memory == b.memory
    &&& a.tools == b.tools
    &&& a.skills == b.skills
}

/// A titled section of the system message, absent when it has no items.
pub open spec fn section(title: Seq<char>, items: Seq<Seq<char>>) -> Seq<Seq<char>> {
    if items.len() == 0 {
        Seq::empty()
    } else {
        seq![title + join(items, "\n"@)]
    }
}

pub open spec fn tool_lines(ts: Seq<Tool>) -> Seq<Seq<char>> {
    ts.map_values(|t: Tool| hint(t.name@, t.description@))
}

pub open spec fn skill_lines(ss: Seq<Skill>) -> Seq<Seq<char>> {
    ss.map_values(|s: Skill| hint(s.name@, s.description@))
}

/// The parts of the system message: the prompt, then documents, memory, tools and skills.
pub open spec fn system_parts(c: &Context) -> Seq<Seq<char>> {
    (match c.system_prompt {
        Some(p) => seq![p@],
        None => Seq::empty(),
    }) + section("\n## Documents\n"@, strings_view(c.documents@)) + section(
        "\n## Memory\n"@,
        strings_view(c.memory@),
    ) + section("\n## Tools\n"@, tool_lines(c.tools@)) + section(
        "\n## Skills\n"@,
        skill_lines(c.skills@),
    )
}

/// The role-tagged messages for a context: the system message when there is anything
/// to say in it, the history in its order, and the pending user message last.
pub open spec fn messages(c: &Context) -> Seq<MessageView> {
    (if system_parts(c).len() > 0 {
        seq![MessageView { role: Role::System, content: join(system_parts(c), "\n"@) }]
    } else {
        Seq::empty()
    }) + messages_view(c.history@) + (match c.user_message {
        Some(u) => seq![MessageView { role: Role::User, content: u@ }],
        None => Seq::empty(),
    })
}

fn chars_of_strings(v: &Vec<String>) -> (r: Vec<Vec<char>>)
    ensures
        r@.map_values(|p: Vec<char>| p@) == strings_view(v@),
{
    let mut r: Vec<Vec<char>> = Vec::new();
    let mut i: usize = 0;
    while i < v.len()
        invariant
            i <= v.len(),
            r.len() == i,
            forall|k: int| 0 <= k < i ==> r@[k]@ == v@[k]@,
        decreases v.len() - i,
    {
        r.push(chars_of(v[i].as_str()));
        i = i + 1;
    }
    assert(r@.map_values(|p: Vec<char>| p@) =~= strings_view(v@));
    r
}

fn hints_of_tools(v: &Vec<Tool>) -> (r: Vec<Vec<char>>)
    ensures
        r@.map_values(|p: Vec<char>| p@) == tool_lines(v@),
{
    let mut r: Vec<Vec<char>> = Vec::new();
    let mut i: usize = 0;
    while i < v.len()
        invariant
            i <= v.len(),
            r.len() == i,
            forall|k: int| 0 <= k < i ==> r@[k]@ == hint(v@[k].name@, v@[k].description@),
        decreases v.len() - i,
    {
        let mut line: Vec<char> = Vec::new();
        append_str(&mut line, "- ");
        append_str(&mut line, v[i].name.as_str());
        append_str(&mut line, ": ");
        append_str(&mut line, v[i].description.as_str());
        r.push(line);
        i = i + 1;
    }
    assert(r@.map_values(|p: Vec<char>| p@) =~= tool_lines(v@));
    r
}

fn hints_of_skills(v: &Vec<Skill>) -> (r: Vec<Vec<char>>)
    ensures
        r@.map_values(|p: Vec<char>| p@) == skill_lines(v@),
{
    let mut r: Vec<Vec<char>> = Vec::new();
    let mut i: usize = 0;
    while i < v.len()
        invariant
            i <= v.len(),
            r.len() == i,
            forall|k: int| 0 <= k < i ==> r@[k]@ == hint(v@[k].name@, v@[k].description@),
        decreases v.len() - i,
    {
        let h = v[i].to_prompt_hint();
        r.push(chars_of(h.as_str()));
        i = i + 1;
    }
    assert(r@.map_values(|p: Vec<char>| p@) =~= skill_lines(v@));
    r
}

/// Pushes the section titled `title` onto `parts` when `items` is not empty.
fn push_section(parts: &mut Vec<Vec<char>>, title: &str, items: &Vec<Vec<char>>)
    ensures
        final(parts)@.map_values(|p: Vec<char>| p@) == old(parts)@.map_values(|p: Vec<char>| p@)
            + section(title@, items@.map_values(|p: Vec<char>| p@)),
{
    if items.len() > 0 {
        let mut s = chars_of(title);
        let body = join_exec(items, "\n");
        append(&mut s, &body);
        let ghost before = parts@;
        parts.push(s);
        assert(parts@.map_values(|p: Vec<char>| p@) =~= before.map_values(|p: Vec<char>| p@)
            + section(title@, items@.map_values(|p: Vec<char>| p@)));
    } else {
        assert(section(title@, items@.map_values(|p: Vec<char>| p@)) =~= Seq::empty());
        assert(parts@.map_values(|p: Vec<char>| p@) =~= parts@.map_values(|p: Vec<char>| p@)
            + Seq::empty());
    }
}

fn copy_messages(v: &Vec<Message>) -> (r: Vec<Message>)
    ensures
        messages_view(r@) == messages_view(v@),
{
    let mut r: Vec<Message> = Vec::new();
    let mut i: usize = 0;
    while i < v.len()
        invariant
            i <= v.len(),
            r.len() == i,
            forall|k: int| 0 <= k < i ==> r@[k]@ == v@[k]@,
        decreases v.len() - i,
    {
        r.push(v[i].duplicate());
        i = i + 1;
    }
    assert(messages_view(r@) =~= messages_view(v@));
    r
}

impl Context {
    pub fn new() -> (r: Context)
        ensures
            r.system_prompt is None,
            r.documents@.len() == 0,
            r.memory@.len() == 0,
            r.tools@.len() == 0,
            r.skills@.len() == 0,
            r.user_message is None,
            r.history@.len() == 0,
            r.trajectory@.len() == 0,
            r.action@ is Pending,
    {
        Context {
            system_prompt: None,
            documents: Vec::new(),
            memory: Vec::new(),
            tools: Vec::new(),
            skills: Vec::new(),
            user_message: None,
            history: Vec::new(),
            trajectory: Vec::new(),
            action: Action::Pending,
        }
    }

    /// The role-tagged messages to send: system message, history in order, user message last.
    pub fn to_messages(&self) -> (r: Vec<Message>)
        ensures
            messages_view(r@) == messages(self),
    {
        let mut parts: Vec<Vec<char>> = Vec::new();
        match &self.system_prompt {
            Some(p) => {
                parts.push(chars_of(p.as_str()));
            },
            None => {},
        }
        let docs = chars_of_strings(&self.documents);
        push_section(&mut parts, "\n## Documents\n", &docs);
        let mem = chars_of_strings(&self.memory);
        push_section(&mut parts, "\n## Memory\n", &mem);
        let tools = hints_of_tools(&self.tools);
        push_section(&mut parts, "\n## Tools\n", &tools);
        let skills = hints_of_skills(&self.skills);
        push_section(&mut parts, "\n## Skills\n", &skills);
        assert(parts@.map_values(|p: Vec<char>| p@) =~= system_parts(self));
        let mut r: Vec<Message> = Vec::new();
        if parts.len() > 0 {
            let sys = join_exec(&parts, "\n");
            r.push(Message { role: Role::System, content: string_of(&sys) });
        }
        let ghost head = messages_view(r@);
        let mut hist = copy_messages(&self.history);
        r.append(&mut hist);
        assert(messages_view(r@) =~= head + messages_view(self.history@));
        match &self.user_message {
            Some(u) => {
                r.push(Message { role: Role::User, content: u.clone() });
            },
            None => {},
        }
        assert(messages_view(r@) =~= messages(self));
        r
    }

    pub fn set_system_prompt(&mut self, prompt: &str)
        ensures
            opt_view(final(self).system_prompt) == Some(prompt@),
            final(self).history == old(self).history,
            final(self).trajectory == old(self).trajectory,
            final(self).user_message == old(self).user_message,
            final(self).action == old(self).action,
            final(self).documents == old(self).documents,
            final(self).memory == old(self).memory,
            final(self).tools == old(self).tools,
            final(self).skills == old(self).skills,
    {
        self.system_prompt = Some(String::from_str(prompt));
    }

    pub fn set_user_message(&mut self, msg: &str)
        ensures
            opt_view(final(self).user_message) == Some(msg@),
            final(self).history == old(self).history,
            final(self).trajectory == old(self).trajectory,
            final(self).system_prompt == old(self).system_prompt,
            final(self).action == old(self).action,
            final(self).documents == old(self).documents,
            final(self).memory == old(self).memory,
            final(self).tools == old(self).tools,
            final(self).skills == old(self).skills,
    {
        self.user_message = Some(String::from_str(msg));
    }

    pub fn add_document(&mut self, doc: &str)
        ensures
            strings_view(final(self).documents@) == strings_view(old(self).documents@).push(doc@),
    {
        let ghost before = self.documents@;
        self.documents.push(String::from_str(doc));
        assert(strings_view(self.documents@) =~= strings_view(before).push(doc@));
    }

    pub fn add_memory(&mut self, mem: &str)
        ensures
            strings_view(final(self).memory@) == strings_view(old(self).memory@).push(mem@),
    {
        let ghost before = self.memory@;
        self.memory.push(String::from_str(mem));
        assert(strings_view(self.memory@) =~= strings_view(before).push(mem@));
    }

    pub fn add_tool(&mut self, name: &str, description: &str)
        ensures
            tool_lines(final(self).tools@) == tool_lines(old(self).tools@).push(
                hint(name@, description@),
            ),
            final(self).tools@.len() == old(self).tools@.len() + 1,
    {
        let ghost before = self.tools@;
        self.tools.push(Tool { name: String::from_str(name), description: String::from_str(description) });
        assert(tool_lines(self.tools@) =~= tool_lines(before).push(hint(name@, description@)));
    }

    /// Appends a message to the history.
    pub fn push_history(&mut self, msg: Message)
        ensures
            messages_view(final(self).history@) == messages_view(old(self).history@).push(msg@),
            final(self).history@ == old(self).history@.push(msg),
            final(self).trajectory == old(self).trajectory,
            same_setup(&*final(self), &*old(self)),
            final(self).action == old(self).action,
    {
        let ghost before = self.history@;
        self.history.push(msg);
        assert(messages_view(self.history@) =~= messages_view(before).push(msg@));
    }

    /// The content of the latest message.
    pub fn last_content(&self) -> (r: Option<&str>)
        ensures
            match r {
                Some(s) => self.history@.len() > 0 && s@ == self.history@.last().content@,
                None => self.history@.len() == 0,
            },
    {
        let n = self.history.len();
        if n == 0 {
            None
        } else {
            Some(self.history[n - 1].content.as_str())
        }
    }

    /// Moves the pending user message into the history.
    pub fn commit_user_message(&mut self)
        ensures
            final(self).user_message is None,
            match old(self).user_message {
                Some(u) => messages_view(final(self).history@) == messages_view(
                    old(self).history@,
                ).push(MessageView { role: Role::User, content: u@ }),
                None => final(self).history == old(self).history,
            },
            final(self).trajectory == old(self).trajectory,
    {
        match &self.user_message {
            Some(u) => {
                let m = Message { role: Role::User, content: u.clone() };
                self.push_history(m);
            },
            None => {},
        }
        self.user_message = None;
    }

    /// Starts a step for a new query: a pending step that records the query.
    pub fn init_step(&mut self, query: &str)
        ensures
            final(self).trajectory@.len() == old(self).trajectory@.len() + 1,
            forall|i: int|
                0 <= i < old(self).trajectory@.len() ==> final(self).trajectory@[i] == old(
                    self,
                ).trajectory@[i],
            final(self).trajectory@.last().kind == ThoughtKind::Query,
            opt_view(final(self).trajectory@.last().thought) == Some(query@),
            final(self).trajectory@.last().action@ is Pending,
            final(self).trajectory@.last().observation is None,
            final(self).trajectory@.last().answer is None,
            final(self).action@ is Pending,
            final(self).history == old(self).history,
            same_setup(&*final(self), &*old(self)),
    {
        self.trajectory.push(
            Step {
                kind: ThoughtKind::Query,
                thought: Some(String::from_str(query)),
                action: Action::Pending,
                parameters: Vec::new(),
                observation: None,
                answer: None,
            },
        );
        self.action = Action::Pending;
    }

    /// Appends a step to the trajectory.
    pub fn log_step(&mut self, step: Step)
        ensures
            final(self).trajectory@ == old(self).trajectory@.push(step),
            final(self).history == old(self).history,
            same_setup(&*final(self), &*old(self)),
            final(self).action == old(self).action,
    {
        self.trajectory.push(step);
    }

    /// Back-fills the observation of the latest step, the one entry that may change in place.
    pub fn set_last_observation(&mut self, observation: &str)
        ensures
            final(self).trajectory@.len() == old(self).trajectory@.len(),
            forall|i: int|
                0 <= i < old(self).trajectory@.len() - 1 ==> final(self).trajectory@[i] == old(
                    self,
                ).trajectory@[i],
            old(self).trajectory@.len() > 0 ==> {
                let (a, b) = (final(self).trajectory@.last(), old(self).trajectory@.last());
                &&& opt_view(a.observation) == Some(observation@)
                &&& a.kind == b.kind && a.thought == b.thought && a.action == b.action
                &&& a.parameters == b.parameters && a.answer == b.answer
            },
            final(self).history == old(self).history,
            final(self).action == old(self).action,
            same_setup(&*final(self), &*old(self)),
    {
        let n = self.trajectory.len();
        if n > 0 {
            let mut step = self.trajectory.pop().unwrap();
            step.observation = Some(String::from_str(observation));
            self.trajectory.push(step);
        }
    }

    /// Closes an interactive turn: drops what the run added to the history after its first
    /// `kept` entries, records the question and the answer in their place, and clears the
    /// pending user message.
    pub fn finish_turn(&mut self, kept: usize, question: &str, answer: &str)
        ensures
            messages_view(final(self).history@) == messages_view(
                old(self).history@.subrange(0, if kept <= old(self).history@.len() {
                    kept as int
                } else {
                    old(self).history@.len() as int
                }),
            ).push(MessageView { role: Role::User, content: question@ }).push(
                MessageView { role: Role::Assistant, content: answer@ },
            ),
            final(self).user_message is None,
            final(self).trajectory == old(self).trajectory,
            final(self).system_prompt == old(self).system_prompt,
            final(self).skills == old(self).skills,
    {
        let ghost before = self.history@;
        let keep = if kept <= self.history.len() {
            kept
        } else {
            self.history.len()
        };
        self.history.truncate(keep);
        assert(self.history@ =~= before.subrange(0, keep as int));
        self.push_history(Message::user(question));
        self.push_history(Message::assistant(answer));
        self.user_message = None;
    }
}

/// The rendered messages keep the order of a context's parts: the system message, which
/// starts with the system prompt, then every history entry in its order, then the user
/// message last.
pub proof fn lemma_messages_order(c: &Context)
    requires
        c.system_prompt is Some,
        c.user_message is Some,
    ensures
        ({
            let m = messages(c);
            let k = c.history@.len() as int;
            let s = c.system_prompt->0@;
            &&& m.len() == k + 2
            &&& m[0].role == Role::System
            &&& s.len() <= m[0].content.len()
            &&& m[0].content.subrange(0, s.len() as int) == s
            &&& forall|i: int| 0 <= i < k ==> m[i + 1] == c.history@[i]@
            &&& m[k + 1] == (MessageView { role: Role::User, content: c.user_message->0@ })
        }),
{
    let parts = system_parts(c);
    assert(parts[0] == c.system_prompt->0@);
    lemma_join_starts_with_first(parts, "\n"@);
}

} // verus!
