//! Decoding a model's reply: a whole JSON body, or a stream of server-sent event frames.
use vstd::prelude::*;
use crate::action::strings_view;
use crate::context::opt_view;
use crate::structured::{decode_json, find_field, json_value, lookup, FieldValue, FieldView, Json, JsonView};
use crate::text::{append_str, chars_of, same_chars, slice_of, split_on, split_on_exec, string_of, trim, trim_exec};

verus! {

/// The field `key` of the JSON object that `s` holds.
pub open spec fn field_in(s: Seq<char>, key: Seq<char>) -> Option<FieldView> {
    match json_value(s) {
        Some(JsonView::Object(es)) => lookup(es, key),
        _ => None,
    }
}

/// The first item of the JSON array that `s` holds.
pub open spec fn first_in(s: Seq<char>) -> Option<FieldView> {
    match json_value(s) {
        Some(JsonView::Array(items)) => if items.len() > 0 {
            Some(items[0])
        } else {
            None
        },
        _ => None,
    }
}

/// The text at `choices[0].<part>.content` of the JSON that `s` holds, where it is a string.
pub open spec fn choice_content(s: Seq<char>, part: Seq<char>) -> Option<Seq<char>> {
    match field_in(s, "choices"@) {
        Some(FieldView::Other(choices)) => match first_in(choices) {
            Some(FieldView::Other(choice)) => match field_in(choice, part) {
                Some(FieldView::Other(inner)) => match field_in(inner, "content"@) {
                    Some(FieldView::Text(c)) => Some(c),
                    _ => None,
                },
                _ => None,
            },
            _ => None,
        },
        _ => None,
    }
}

/// The content piece that one stream frame carries.
pub open spec fn frame_delta(data: Seq<char>) -> Option<Seq<char>> {
    choice_content(data, "delta"@)
}

/// The content of a whole reply body.
pub open spec fn reply_text(body: Seq<char>) -> Option<Seq<char>> {
    choice_content(body, "message"@)
}

fn field_in_exec(s: &str, key: &str) -> (r: Option<FieldValue>)
    ensures
        match r {
            Some(v) => field_in(s@, key@) == Some(v@),
            None => field_in(s@, key@) is None,
        },
{
    match decode_json(s) {
        Some(Json::Object(es)) => match find_field(&es, key) {
            Some(v) => Some(v.duplicate()),
            None => None,
        },
        _ => None,
    }
}

fn first_in_exec(s: &str) -> (r: Option<FieldValue>)
    ensures
        match r {
            Some(v) => first_in(s@) == Some(v@),
            None => first_in(s@) is None,
        },
{
    match decode_json(s) {
        Some(Json::Array(items)) => if items.len() > 0 {
            Some(items[0].duplicate())
        } else {
            None
        },
        _ => None,
    }
}

/// The text at `choices[0].<part>.content` of the JSON that `s` holds, where it is a string.
fn choice_content_exec(s: &str, part: &str) -> (r: Option<String>)
    ensures
        opt_view(r) == choice_content(s@, part@),
{
    match field_in_exec(s, "choices") {
        Some(FieldValue::Other(choices)) => match first_in_exec(choices.as_str()) {
            Some(FieldValue::Other(choice)) => match field_in_exec(choice.as_str(), part) {
                Some(FieldValue::Other(inner)) => match field_in_exec(inner.as_str(), "content") {
                    Some(FieldValue::Text(c)) => Some(c),
                    _ => None,
                },
                _ => None,
            },
            _ => None,
        },
        _ => None,
    }
}

/// The content of a whole (non-streamed) reply body; empty when it has none.
pub fn completion_text(body: &str) -> (r: String)
    ensures
        r@ == match reply_text(body@) {
            Some(t) => t,
            None => Seq::empty(),
        },
{
    match choice_content_exec(body, "message") {
        Some(t) => t,
        None => String::new(),
    }
}

pub open spec fn strip_prefix(s: Seq<char>, p: Seq<char>) -> Option<Seq<char>> {
    if p.len() <= s.len() && s.subrange(0, p.len() as int) == p {
        Some(s.subrange(p.len() as int, s.len() as int))
    } else {
        None
    }
}

/// The content that one line of the stream carries: a `data: ` frame other than
/// `[DONE]` whose JSON holds a delta.
pub open spec fn line_piece(line: Seq<char>) -> Option<Seq<char>> {
    match strip_prefix(trim(line), "data: "@) {
        Some(d) => if d == "[DONE]"@ {
            None
        } else {
            frame_delta(d)
        },
        None => None,
    }
}

/// The content pieces of complete lines, in order.
pub open spec fn pieces(lines: Seq<Seq<char>>) -> Seq<Seq<char>>
    decreases lines.len(),
{
    if lines.len() == 0 {
        Seq::empty()
    } else {
        match line_piece(lines.last()) {
            Some(p) => pieces(lines.drop_last()).push(p),
            None => pieces(lines.drop_last()),
        }
    }
}

pub open spec fn concat(ps: Seq<Seq<char>>) -> Seq<char>
    decreases ps.len(),
{
    if ps.len() == 0 {
        Seq::empty()
    } else {
        concat(ps.drop_last()) + ps.last()
    }
}

/// The lines that a text completes, and the unfinished rest after its last newline.
pub open spec fn complete_lines(s: Seq<char>) -> Seq<Seq<char>> {
    split_on(s, '\n').drop_last()
}

pub open spec fn unfinished(s: Seq<char>) -> Seq<char> {
    split_on(s, '\n').last()
}

/// The state of a streamed reply: text not yet ended by a newline, the content gathered,
/// and whether the user cut it short.
#[derive(Debug, Clone)]
pub struct StreamState {
    pub buffer: String,
    pub content: String,
    pub interrupted: bool,
}

fn line_piece_exec(line: &[char]) -> (r: Option<String>)
    ensures
        opt_view(r) == line_piece(line@),
{
    let l = trim_exec(line);
    let p = chars_of("data: ");
    assert(p@.len() == p.len() && l@.len() == l.len());
    if p.len() > l.len() {
        return None;
    }
    let head = slice_of(&l, 0, p.len());
    if !same_chars(&head, &p) {
        return None;
    }
    let d = slice_of(&l, p.len(), l.len());
    if same_chars(&d, &chars_of("[DONE]")) {
        return None;
    }
    choice_content_exec(string_of(&d).as_str(), "delta")
}

impl StreamState {
    pub fn new() -> (r: StreamState)
        ensures
            r.buffer@ == Seq::<char>::empty(),
            r.content@ == Seq::<char>::empty(),
            !r.interrupted,
    {
        StreamState { buffer: String::new(), content: String::new(), interrupted: false }
    }

    /// Takes the next chunk of the stream and returns the content pieces of the lines it
    /// completes, in order; they are added to the content.
    pub fn feed(&mut self, chunk: &str) -> (r: Vec<String>)
        ensures
            strings_view(r@) == pieces(complete_lines(old(self).buffer@ + chunk@)),
            final(self).content@ == old(self).content@ + concat(
                pieces(complete_lines(old(self).buffer@ + chunk@)),
            ),
            final(self).buffer@ == unfinished(old(self).buffer@ + chunk@),
            final(self).interrupted == old(self).interrupted,
    {
        let mut all = chars_of(self.buffer.as_str());
        append_str(&mut all, chunk);
        let parts = split_on_exec(&all, '\n');
        let ghost pv = parts@.map_values(|p: Vec<char>| p@);
        proof {
            crate::text::lemma_split_on_nonempty(all@, '\n');
        }
        let last = parts.len() - 1;
        let mut out: Vec<String> = Vec::new();
        let mut content = chars_of(self.content.as_str());
        let mut i: usize = 0;
        while i < last
            invariant
                i <= last == parts.len() - 1,
                pv == parts@.map_values(|p: Vec<char>| p@),
                strings_view(out@) == pieces(pv.subrange(0, i as int)),
                content@ == old(self).content@ + concat(pieces(pv.subrange(0, i as int))),
            decreases last - i,
        {
            proof {
                let next = pv.subrange(0, i + 1);
                assert(next.drop_last() =~= pv.subrange(0, i as int));
                assert(next.last() == parts@[i as int]@);
            }
            match line_piece_exec(&parts[i]) {
                Some(p) => {
                    let ghost before = out@;
                    let ghost prev = pieces(pv.subrange(0, i as int));
                    let ghost next = pieces(pv.subrange(0, i + 1));
                    append_str(&mut content, p.as_str());
                    out.push(p);
                    assert(strings_view(out@) =~= strings_view(before).push(p@));
                    assert(next =~= prev.push(p@));
                    assert(next.drop_last() =~= prev);
                    assert(concat(next) == concat(prev) + p@);
                    assert(content@ =~= old(self).content@ + concat(next));
                },
                None => {},
            }
            i = i + 1;
        }
        assert(pv.subrange(0, last as int) =~= pv.drop_last());
        self.buffer = string_of(&parts[last]);
        self.content = string_of(&content);
        out
    }

    /// Marks the reply as cut short by the user; what was gathered stays.
    pub fn interrupt(&mut self)
        ensures
            final(self).interrupted,
            final(self).content == old(self).content,
            final(self).buffer == old(self).buffer,
    {
        self.interrupted = true;
    }

    /// The content gathered and whether the reply was cut short.
    pub fn finish(&self) -> (r: (String, bool))
        ensures
            r.0@ == self.content@,
            r.1 == self.interrupted,
    {
        (self.content.clone(), self.interrupted)
    }
}

} // verus!
