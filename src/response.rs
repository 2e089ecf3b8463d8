//! Reading free-text model output as an action, a payload and the text to record.
use vstd::prelude::*;
use crate::action::{Action, ActionView};
use crate::structured::{
    decoded_view, json_fields, yaml_fields, drop_field, entries_view, find_text, json_object,
    text_field, without_key, yaml_object, Entry, EntryView,
};
use crate::text::{
    chars_of, find, find_exec, rfind, rfind_exec, same_chars, slice_of, string_of, trim,
    trim_exec,
};
use vstd::string::StringExecFns;

verus! {

/// What a response carries besides its action.
#[derive(Debug, Clone, PartialEq)]
pub enum Payload {
    /// The fields of a structured block, without its `action` field.
    Fields(Vec<Entry>),
    /// Plain text.
    Text(String),
}

/// A model response read as an action, a payload and the text that goes into the history.
#[derive(Debug, Clone, PartialEq)]
pub struct ParsedResponse {
    pub action: Action,
    pub payload: Payload,
    pub text: String,
}

pub enum PayloadView {
    Fields(Seq<EntryView>),
    Text(Seq<char>),
}

pub struct ResponseView {
    pub action: ActionView,
    pub payload: PayloadView,
    pub text: Seq<char>,
}

impl View for Payload {
    type V = PayloadView;

    open spec fn view(&self) -> PayloadView {
        match self {
            Payload::Fields(es) => PayloadView::Fields(entries_view(es@)),
            Payload::Text(t) => PayloadView::Text(t@),
        }
    }
}

impl View for ParsedResponse {
    type V = ResponseView;

    open spec fn view(&self) -> ResponseView {
        ResponseView { action: self.action@, payload: self.payload@, text: self.text@ }
    }
}

/// The trimmed text between the first `open` and the last `close` after it.
pub open spec fn tag_body(s: Seq<char>, open: Seq<char>, close: Seq<char>) -> Option<Seq<char>> {
    match find(s, open) {
        None => None,
        Some(a) => {
            let inner = s.subrange(a + open.len(), s.len() as int);
            match rfind(inner, close) {
                None => None,
                Some(b) => Some(trim(inner.subrange(0, b))),
            }
        },
    }
}

/// The response read in the tag dialect, where `s` wraps its payload in a
/// `<continue>` or a `<stop>` pair.
pub open spec fn tagged(s: Seq<char>) -> Option<ResponseView> {
    match tag_body(s, "<continue>"@, "</continue>"@) {
        Some(b) => Some(
            ResponseView { action: ActionView::Continue, payload: PayloadView::Text(b), text: b },
        ),
        None => match tag_body(s, "<stop>"@, "</stop>"@) {
            Some(b) => Some(
                ResponseView { action: ActionView::Stop, payload: PayloadView::Text(b), text: b },
            ),
            None => None,
        },
    }
}

/// The first fenced block of `s`: the trimmed tag on its opening line and its trimmed body.
pub open spec fn fenced_block(s: Seq<char>) -> Option<(Seq<char>, Seq<char>)> {
    match find(s, "```"@) {
        None => None,
        Some(a) => {
            let after = s.subrange(a + "```"@.len(), s.len() as int);
            let tag = match find(after, "\n"@) {
                Some(k) => after.subrange(0, k),
                None => Seq::empty(),
            };
            let rest = match find(after, "\n"@) {
                Some(k) => after.subrange(k + 1, after.len() as int),
                None => after,
            };
            match find(rest, "```"@) {
                None => None,
                Some(e) => Some((trim(tag), trim(rest.subrange(0, e)))),
            }
        },
    }
}

pub open spec fn is_yaml_tag(t: Seq<char>) -> bool {
    t == "yaml"@ || t == "yml"@
}

/// The text to decode, and whether it is YAML: the body of the first fenced block, else all of `s`.
pub open spec fn candidate(s: Seq<char>) -> (Seq<char>, bool) {
    match fenced_block(s) {
        Some((t, b)) => (b, is_yaml_tag(t)),
        None => (s, false),
    }
}

pub open spec fn decode(c: Seq<char>, yaml: bool) -> Option<Seq<EntryView>> {
    if yaml {
        yaml_object(c)
    } else {
        json_object(c)
    }
}

/// The action that the `action` field names: `continue`, `stop` (also when absent or not
/// a string), or the name of a tool.
pub open spec fn action_of_fields(es: Seq<EntryView>) -> ActionView {
    match text_field(es, "action"@) {
        Some(a) => if a == "continue"@ {
            ActionView::Continue
        } else if a == "stop"@ {
            ActionView::Stop
        } else {
            ActionView::CallTool(a)
        },
        None => ActionView::Stop,
    }
}

/// The reading of `s` as a final plain-text answer.
pub open spec fn plain(s: Seq<char>) -> ResponseView {
    ResponseView { action: ActionView::Stop, payload: PayloadView::Text(trim(s)), text: trim(s) }
}

/// The reading of `s` given what decoding its candidate text `c` gave.
pub open spec fn decoded_response(
    s: Seq<char>,
    c: Seq<char>,
    d: Option<Seq<EntryView>>,
) -> ResponseView {
    match d {
        Some(es) => ResponseView {
            action: action_of_fields(es),
            payload: PayloadView::Fields(without_key(es, "action"@)),
            text: trim(c),
        },
        None => plain(s),
    }
}

/// The reading of a model response `s`.
pub open spec fn response(s: Seq<char>) -> ResponseView {
    match tagged(s) {
        Some(r) => r,
        None => decoded_response(s, candidate(s).0, decode(candidate(s).0, candidate(s).1)),
    }
}

/// The trimmed text between the first `open` and the last `close` after it.
fn tag_body_exec(s: &[char], open: &str, close: &str) -> (r: Option<Vec<char>>)
    ensures
        match r {
            Some(b) => tag_body(s@, open@, close@) == Some(b@),
            None => tag_body(s@, open@, close@) is None,
        },
{
    let o = chars_of(open);
    let c = chars_of(close);
    match find_exec(s, &o, 0) {
        None => None,
        Some(a) => {
            assert(o@.len() == o.len() && s@.len() == s.len());
            let inner = slice_of(s, a + o.len(), s.len());
            match rfind_exec(&inner, &c) {
                None => None,
                Some(b) => {
                    let body = slice_of(&inner, 0, b);
                    Some(trim_exec(&body))
                },
            }
        },
    }
}

fn tagged_exec(s: &[char]) -> (r: Option<(Action, Vec<char>)>)
    ensures
        match r {
            Some((a, b)) => tagged(s@) == Some(
                ResponseView { action: a@, payload: PayloadView::Text(b@), text: b@ },
            ),
            None => tagged(s@) is None,
        },
{
    match tag_body_exec(s, "<continue>", "</continue>") {
        Some(b) => Some((Action::Continue, b)),
        None => match tag_body_exec(s, "<stop>", "</stop>") {
            Some(b) => Some((Action::Stop, b)),
            None => None,
        },
    }
}

/// Reads the tag dialect: the payload wrapped in `<continue>` or `<stop>` decides the
/// action; without such a pair the action is `Stop` and the payload the trimmed text.
pub fn parse_action(content: &str) -> (r: (Action, String))
    ensures
        match tagged(content@) {
            Some(t) => r.0@ == t.action && r.1@ == t.text,
            None => r.0@ == ActionView::Stop && r.1@ == trim(content@),
        },
{
    let s = chars_of(content);
    match tagged_exec(&s) {
        Some((a, b)) => (a, string_of(&b)),
        None => (Action::Stop, string_of(&trim_exec(&s))),
    }
}

fn fenced_block_exec(s: &[char]) -> (r: Option<(Vec<char>, Vec<char>)>)
    ensures
        match r {
            Some((t, b)) => fenced_block(s@) == Some((t@, b@)),
            None => fenced_block(s@) is None,
        },
{
    let fence = chars_of("```");
    let newline = chars_of("\n");
    match find_exec(s, &fence, 0) {
        None => None,
        Some(a) => {
            assert(fence@.len() == fence.len() && s@.len() == s.len());
            let after = slice_of(s, a + fence.len(), s.len());
            let (tag, rest) = match find_exec(&after, &newline, 0) {
                Some(k) => {
                    assert(newline@.len() == newline.len());
                    proof {
                        reveal_strlit("\n");
                    }
                    (slice_of(&after, 0, k), slice_of(&after, k + 1, after.len()))
                },
                None => (Vec::new(), slice_of(&after, 0, after.len())),
            };
            proof {
                assert(after@.subrange(0, after@.len() as int) =~= after@);
            }
            match find_exec(&rest, &fence, 0) {
                None => None,
                Some(e) => {
                    let body = slice_of(&rest, 0, e);
                    Some((trim_exec(&tag), trim_exec(&body)))
                },
            }
        },
    }
}

/// The action that the `action` field names.
pub fn action_of(fields: &Vec<Entry>) -> (r: Action)
    ensures
        r@ == action_of_fields(entries_view(fields@)),
{
    match find_text(fields, "action") {
        Some(a) => {
            let cont = String::from_str("continue");
            let stop = String::from_str("stop");
            if *a == cont {
                Action::Continue
            } else if *a == stop {
                Action::Stop
            } else {
                Action::CallTool(a.clone())
            }
        },
        None => Action::Stop,
    }
}

/// Reads a response from what decoding its candidate text gave: the fields of an
/// object decide the action and form the payload; anything else makes the whole
/// trimmed text the final answer.
pub fn interpret_decoded(text: &str, candidate: &str, decoded: Option<Vec<Entry>>) -> (r:
    ParsedResponse)
    ensures
        r@ == decoded_response(text@, candidate@, decoded_view(decoded)),
{
    match decoded {
        Some(fields) => {
            let action = action_of(&fields);
            let rest = drop_field(&fields, "action");
            let c = chars_of(candidate);
            ParsedResponse {
                action,
                payload: Payload::Fields(rest),
                text: string_of(&trim_exec(&c)),
            }
        },
        None => {
            let s = chars_of(text);
            let t = trim_exec(&s);
            ParsedResponse { action: Action::Stop, payload: Payload::Text(string_of(&t)), text: string_of(&t) }
        },
    }
}

/// Reads a model response. Never fails: text that holds neither a tag pair nor a
/// structured object is the final answer.
pub fn parse_response(text: &str) -> (r: ParsedResponse)
    ensures
        r@ == response(text@),
{
    let s = chars_of(text);
    match tagged_exec(&s) {
        Some((action, b)) => {
            let t = string_of(&b);
            ParsedResponse { action, payload: Payload::Text(t.clone()), text: t }
        },
        None => {
            let (cand, yaml) = match fenced_block_exec(&s) {
                Some((tag, body)) => {
                    let y1 = chars_of("yaml");
                    let y2 = chars_of("yml");
                    let is_yaml = same_chars(&tag, &y1) || same_chars(&tag, &y2);
                    (string_of(&body), is_yaml)
                },
                None => (string_of(&s), false),
            };
            let decoded = if yaml {
                yaml_fields(cand.as_str())
            } else {
                json_fields(cand.as_str())
            };
            interpret_decoded(text, cand.as_str(), decoded)
        },
    }
}

/// A response without a tag pair whose first fenced block decodes to an object with
/// `action: continue` reads as `Continue`, with the object's other fields as payload.
pub proof fn lemma_fenced_continue(
    s: Seq<char>,
    tag: Seq<char>,
    body: Seq<char>,
    fields: Seq<EntryView>,
)
    requires
        tagged(s) is None,
        fenced_block(s) == Some((tag, body)),
        decode(body, is_yaml_tag(tag)) == Some(fields),
        text_field(fields, "action"@) == Some("continue"@),
    ensures
        response(s).action == ActionView::Continue,
        response(s).payload == PayloadView::Fields(without_key(fields, "action"@)),
{
}

/// A response with neither a tag pair nor a decodable object reads as `Stop`, with the
/// trimmed response as payload.
pub proof fn lemma_unstructured_is_final(s: Seq<char>)
    requires
        tagged(s) is None,
        decode(candidate(s).0, candidate(s).1) is None,
    ensures
        response(s).action == ActionView::Stop,
        response(s).payload == PayloadView::Text(trim(s)),
        response(s).text == trim(s),
{
}

} // verus!
