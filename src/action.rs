//! The discrete control signals that a step of the agent produces.
use vstd::prelude::*;

verus! {

/// What a step decided; it both steers the loop and says what must happen next.
#[derive(Debug, Clone, PartialEq)]
pub enum Action {
    Pending,
    Continue,
    Stop,
    Execute(Option<String>),
    CallTool(String),
    UseSkill(Vec<String>),
}

/// The mathematical value of an [`Action`].
pub enum ActionView {
    Pending,
    Continue,
    Stop,
    Execute(Option<Seq<char>>),
    CallTool(Seq<char>),
    UseSkill(Seq<Seq<char>>),
}

pub open spec fn strings_view(v: Seq<String>) -> Seq<Seq<char>> {
    v.map_values(|s: String| s@)
}

impl View for Action {
    type V = ActionView;

    open spec fn view(&self) -> ActionView {
        match self {
            Action::Pending => ActionView::Pending,
            Action::Continue => ActionView::Continue,
            Action::Stop => ActionView::Stop,
            Action::Execute(c) => ActionView::Execute(
                match c {
                    Some(s) => Some(s@),
                    None => None,
                },
            ),
            Action::CallTool(n) => ActionView::CallTool(n@),
            Action::UseSkill(ns) => ActionView::UseSkill(strings_view(ns@)),
        }
    }
}

/// A copy of a list of strings.
pub fn copy_strings(v: &Vec<String>) -> (r: Vec<String>)
    ensures
        strings_view(r@) == strings_view(v@),
{
    let mut r: Vec<String> = Vec::new();
    let mut i: usize = 0;
    while i < v.len()
        invariant
            i <= v.len(),
            r.len() == i,
            forall|k: int| 0 <= k < i ==> r@[k]@ == v@[k]@,
        decreases v.len() - i,
    {
        r.push(v[i].clone());
        i = i + 1;
    }
    assert(strings_view(r@) =~= strings_view(v@));
    r
}

impl Action {
    /// A copy of this action.
    pub fn duplicate(&self) -> (r: Action)
        ensures
            r@ == self@,
    {
        match self {
            Action::Pending => Action::Pending,
            Action::Continue => Action::Continue,
            Action::Stop => Action::Stop,
            Action::Execute(c) => Action::Execute(
                match c {
                    Some(s) => Some(s.clone()),
                    None => None,
                },
            ),
            Action::CallTool(n) => Action::CallTool(n.clone()),
            Action::UseSkill(ns) => Action::UseSkill(copy_strings(ns)),
        }
    }

    /// Whether this action ends the loop.
    pub fn is_stop(&self) -> (r: bool)
        ensures
            r == (self@ is Stop),
    {
        match self {
            Action::Stop => true,
            _ => false,
        }
    }

    /// Whether this action lets the loop go on without anything to dispatch.
    pub fn is_continue(&self) -> (r: bool)
        ensures
            r == (self@ is Continue),
    {
        match self {
            Action::Continue => true,
            _ => false,
        }
    }
}

} // verus!
