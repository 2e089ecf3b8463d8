//! The post-processing phase of a model step: reading the output into an action and
//! recording it in the context.
use vstd::prelude::*;
use crate::action::{strings_view, Action, ActionView};
use crate::context::{messages_view, opt_view, same_setup, Context, Message, MessageView, Role, Step, ThoughtKind};
use crate::response::{parse_response, response, ParsedResponse, Payload, PayloadView, ResponseView};
use crate::structured::{entries_view, find_text, text_field, Entry, EntryView};
use crate::text::{chars_of, split_on, split_on_exec, string_of, trim, trim_exec};

verus! {

/// The trimmed, non-empty names in a comma-separated list.
pub open spec fn name_list(parts: Seq<Seq<char>>) -> Seq<Seq<char>>
    decreases parts.len(),
{
    if parts.len() == 0 {
        Seq::empty()
    } else if trim(parts.last()).len() > 0 {
        name_list(parts.drop_last()).push(trim(parts.last()))
    } else {
        name_list(parts.drop_last())
    }
}

pub open spec fn skill_names(s: Seq<char>) -> Seq<Seq<char>> {
    name_list(split_on(s, ','))
}

/// The action a step takes: a `continue` that names a `command` executes it, one that
/// names `skills` uses them; any other reading stands as parsed.
pub open spec fn step_action(rv: ResponseView) -> ActionView {
    match rv.payload {
        PayloadView::Fields(es) => if rv.action is Continue {
            match text_field(es, "command"@) {
                Some(c) => ActionView::Execute(Some(c)),
                None => match text_field(es, "skills"@) {
                    Some(ns) => ActionView::UseSkill(skill_names(ns)),
                    None => ActionView::Continue,
                },
            }
        } else {
            rv.action
        },
        PayloadView::Text(_) => rv.action,
    }
}

pub open spec fn payload_fields(rv: ResponseView) -> Seq<EntryView> {
    match rv.payload {
        PayloadView::Fields(es) => es,
        PayloadView::Text(_) => Seq::empty(),
    }
}

/// The final answer a response gives: its `answer` field, or its text when it stops
/// with plain text.
pub open spec fn answer_of(rv: ResponseView) -> Option<Seq<char>> {
    match rv.payload {
        PayloadView::Fields(es) => text_field(es, "answer"@),
        PayloadView::Text(t) => if rv.action is Stop {
            Some(t)
        } else {
            None
        },
    }
}

fn names_exec(s: &str) -> (r: Vec<String>)
    ensures
        strings_view(r@) == skill_names(s@),
{
    let c = chars_of(s);
    let parts = split_on_exec(&c, ',');
    let ghost pv = parts@.map_values(|p: Vec<char>| p@);
    let mut r: Vec<String> = Vec::new();
    let mut i: usize = 0;
    while i < parts.len()
        invariant
            i <= parts.len(),
            pv == parts@.map_values(|p: Vec<char>| p@),
            strings_view(r@) == name_list(pv.subrange(0, i as int)),
        decreases parts.len() - i,
    {
        proof {
            let next = pv.subrange(0, i + 1);
            assert(next.drop_last() =~= pv.subrange(0, i as int));
            assert(next.last() == parts@[i as int]@);
        }
        let t = trim_exec(&parts[i]);
        if t.len() > 0 {
            let ghost before = r@;
            r.push(string_of(&t));
            assert(strings_view(r@) =~= strings_view(before).push(t@));
        }
        i = i + 1;
    }
    assert(pv.subrange(0, parts.len() as int) =~= pv);
    r
}

fn copy_entries(es: &Vec<Entry>) -> (r: Vec<Entry>)
    ensures
        entries_view(r@) == entries_view(es@),
{
    let mut r: Vec<Entry> = Vec::new();
    let mut i: usize = 0;
    while i < es.len()
        invariant
            i <= es.len(),
            r.len() == i,
            forall|k: int| 0 <= k < i ==> r@[k]@ == es@[k]@,
        decreases es.len() - i,
    {
        r.push(es[i].duplicate());
        i = i + 1;
    }
    assert(entries_view(r@) =~= entries_view(es@));
    r
}

/// The action a step takes, given how its output was read.
pub fn decide_action(parsed: &ParsedResponse) -> (r: Action)
    ensures
        r@ == step_action(parsed@),
{
    match &parsed.payload {
        Payload::Fields(es) => {
            if parsed.action.is_continue() {
                match find_text(es, "command") {
                    Some(c) => Action::Execute(Some(c.clone())),
                    None => match find_text(es, "skills") {
                        Some(ns) => Action::UseSkill(names_exec(ns.as_str())),
                        None => Action::Continue,
                    },
                }
            } else {
                parsed.action.duplicate()
            }
        },
        Payload::Text(_) => parsed.action.duplicate(),
    }
}

/// Records a model output in the context: the text it contributed joins the history,
/// a step with its action, fields and answer joins the trajectory, and its action
/// becomes the context's current action, which is returned.
pub fn record_response(ctx: &mut Context, output: &str) -> (r: Action)
    ensures
        r@ == step_action(response(output@)),
        final(ctx).action@ == r@,
        messages_view(final(ctx).history@) == messages_view(old(ctx).history@).push(
            MessageView { role: Role::Assistant, content: response(output@).text },
        ),
        final(ctx).history@.len() == old(ctx).history@.len() + 1,
        final(ctx).trajectory@.len() == old(ctx).trajectory@.len() + 1,
        forall|i: int|
            0 <= i < old(ctx).trajectory@.len() ==> final(ctx).trajectory@[i] == old(
                ctx,
            ).trajectory@[i],
        final(ctx).trajectory@.last().kind == ThoughtKind::Reasoning,
        opt_view(final(ctx).trajectory@.last().thought) == Some(response(output@).text),
        final(ctx).trajectory@.last().action@ == r@,
        entries_view(final(ctx).trajectory@.last().parameters@) == payload_fields(
            response(output@),
        ),
        final(ctx).trajectory@.last().observation is None,
        opt_view(final(ctx).trajectory@.last().answer) == answer_of(response(output@)),
        same_setup(&*final(ctx), &*old(ctx)),
{
    let parsed = parse_response(output);
    let action = decide_action(&parsed);
    let parameters = match &parsed.payload {
        Payload::Fields(es) => copy_entries(es),
        Payload::Text(_) => {
            let e: Vec<Entry> = Vec::new();
            assert(entries_view(e@) =~= Seq::empty());
            e
        },
    };
    let answer = match &parsed.payload {
        Payload::Fields(es) => match find_text(es, "answer") {
            Some(a) => Some(a.clone()),
            None => None,
        },
        Payload::Text(t) => if parsed.action.is_stop() {
            Some(t.clone())
        } else {
            None
        },
    };
    ctx.push_history(Message { role: Role::Assistant, content: parsed.text.clone() });
    ctx.log_step(
        Step {
            kind: ThoughtKind::Reasoning,
            thought: Some(parsed.text),
            action: action.duplicate(),
            parameters,
            observation: None,
            answer,
        },
    );
    ctx.action = action.duplicate();
    action
}

} // verus!
