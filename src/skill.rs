//! Skills: named instruction templates read from a document with a front-matter header.
use vstd::prelude::*;
use crate::text::{
    append, append_str, chars_of, decimal, decimal_exec, find, find_exec, join, join_exec,
    replace, replace_exec, same_chars, slice_of, split_on, split_on_exec, string_of, trim,
    trim_exec, trim_start, words, words_exec, is_space, is_space_spec,
};

verus! {

/// Where a skill runs: in the current conversation or in a forked one.
#[derive(Debug, Clone, Copy, PartialEq, Eq)]
pub enum SkillContext {
    Inline,
    Fork,
}

/// A named instruction template.
#[derive(Debug, Clone)]
pub struct Skill {
    pub name: String,
    pub description: String,
    pub context: SkillContext,
    pub disable_model_invocation: bool,
    pub script: String,
}

/// The one-line hint that lists a skill in a prompt.
pub open spec fn hint(name: Seq<char>, description: Seq<char>) -> Seq<char> {
    "- "@ + name + ": "@ + description
}

/// Why a skill document was refused.
#[derive(Debug, Clone, PartialEq)]
pub enum SkillError {
    /// The name is not 1 to 64 lowercase letters, digits and single inner hyphens.
    InvalidName(String),
    /// The description is empty or longer than 1024 characters.
    InvalidDescription,
}

pub open spec fn name_char(c: char) -> bool {
    ('a' <= c && c <= 'z') || ('0' <= c && c <= '9') || c == '-'
}

/// A skill name: 1 to 64 lowercase letters, digits and hyphens, with no hyphen at
/// either end and no two hyphens in a row.
pub open spec fn valid_name(n: Seq<char>) -> bool {
    &&& 1 <= n.len() <= 64
    &&& forall|i: int| 0 <= i < n.len() ==> name_char(#[trigger] n[i])
    &&& n[0] != '-'
    &&& n.last() != '-'
    &&& forall|i: int| 0 <= i < n.len() - 1 ==> !(#[trigger] n[i] == '-' && n[i + 1] == '-')
}

/// A skill description: 1 to 1024 characters.
pub open spec fn valid_description(d: Seq<char>) -> bool {
    1 <= d.len() <= 1024
}

/// Whether `name` may name a skill.
pub fn is_valid_name(name: &str) -> (r: bool)
    ensures
        r == valid_name(name@),
{
    let n = chars_of(name);
    let len = n.len();
    if len < 1 || len > 64 {
        return false;
    }
    if n[0] == '-' || n[len - 1] == '-' {
        return false;
    }
    let mut i: usize = 0;
    while i < len
        invariant
            i <= len == n@.len(),
            n@ == name@,
            forall|k: int| 0 <= k < i ==> name_char(#[trigger] n@[k]),
            forall|k: int| 0 <= k < i && k < len - 1 ==> !(#[trigger] n@[k] == '-' && n@[k + 1] == '-'),
        decreases len - i,
    {
        let c = n[i];
        if !(('a' <= c && c <= 'z') || ('0' <= c && c <= '9') || c == '-') {
            return false;
        }
        if i + 1 < len && c == '-' && n[i + 1] == '-' {
            return false;
        }
        i = i + 1;
    }
    true
}

/// Whether `description` may describe a skill.
pub fn is_valid_description(description: &str) -> (r: bool)
    ensures
        r == valid_description(description@),
{
    let d = chars_of(description);
    1 <= d.len() && d.len() <= 1024
}

/// The header of a document that starts with `---`, up to the next line that starts with
/// `---`, and the body after it with leading white space removed.
pub open spec fn front_matter(content: Seq<char>) -> Option<(Seq<char>, Seq<char>)> {
    let open = "---"@;
    let close = "\n---"@;
    if open.len() <= content.len() && content.subrange(0, open.len() as int) == open {
        let rest = content.subrange(open.len() as int, content.len() as int);
        match find(rest, close) {
            Some(e) => if 0 <= e && e + close.len() <= rest.len() {
                Some(
                    (
                        rest.subrange(0, e),
                        trim_start(rest.subrange(e + close.len(), rest.len() as int)),
                    ),
                )
            } else {
                None
            },
            None => None,
        }
    } else {
        None
    }
}

/// The `key: value` pair of a header line, both trimmed.
pub open spec fn meta_entry(line: Seq<char>) -> Option<(Seq<char>, Seq<char>)> {
    let l = trim(line);
    match find(l, ":"@) {
        Some(p) => if 0 <= p && p + ":"@.len() <= l.len() {
            Some((trim(l.subrange(0, p)), trim(l.subrange(p + ":"@.len(), l.len() as int))))
        } else {
            None
        },
        None => None,
    }
}

/// The pairs of the header lines, in order.
pub open spec fn meta_entries(lines: Seq<Seq<char>>) -> Seq<(Seq<char>, Seq<char>)>
    decreases lines.len(),
{
    if lines.len() == 0 {
        Seq::empty()
    } else {
        match meta_entry(lines.last()) {
            Some(e) => meta_entries(lines.drop_last()).push(e),
            None => meta_entries(lines.drop_last()),
        }
    }
}

/// The value of `key`: the last pair that names it wins.
pub open spec fn meta_get(es: Seq<(Seq<char>, Seq<char>)>, key: Seq<char>) -> Option<Seq<char>>
    decreases es.len(),
{
    if es.len() == 0 {
        None
    } else if es.last().0 == key {
        Some(es.last().1)
    } else {
        meta_get(es.drop_last(), key)
    }
}

/// The header pairs and the body of a skill document.
pub open spec fn document(content: Seq<char>) -> (Seq<(Seq<char>, Seq<char>)>, Seq<char>) {
    match front_matter(content) {
        Some((h, b)) => (meta_entries(split_on(h, '\n')), b),
        None => (Seq::empty(), content),
    }
}

/// A line without the carriage return that may end it.
pub open spec fn line_text(p: Seq<char>) -> Seq<char> {
    if p.len() > 0 && p.last() == '\r' {
        p.drop_last()
    } else {
        p
    }
}

pub open spec fn lines(s: Seq<char>) -> Seq<Seq<char>> {
    split_on(s, '\n').map_values(|p: Seq<char>| line_text(p))
}

pub open spec fn is_blank(l: Seq<char>) -> bool {
    trim(l).len() == 0
}

pub open spec fn skip_blank(ls: Seq<Seq<char>>) -> Seq<Seq<char>>
    decreases ls.len(),
{
    if ls.len() > 0 && is_blank(ls[0]) {
        skip_blank(ls.drop_first())
    } else {
        ls
    }
}

pub open spec fn take_filled(ls: Seq<Seq<char>>) -> Seq<Seq<char>>
    decreases ls.len(),
{
    if ls.len() > 0 && !is_blank(ls[0]) {
        seq![ls[0]] + take_filled(ls.drop_first())
    } else {
        Seq::empty()
    }
}

/// At most the first 200 characters of `s`.
pub open spec fn first_200(s: Seq<char>) -> Seq<char> {
    if s.len() <= 200 {
        s
    } else {
        s.subrange(0, 200)
    }
}

/// The first paragraph of `s`, its lines joined by spaces, cut to 200 characters.
pub open spec fn first_paragraph(s: Seq<char>) -> Seq<char> {
    first_200(join(take_filled(skip_blank(lines(s))), " "@))
}

pub open spec fn skill_name(content: Seq<char>, default_name: Seq<char>) -> Seq<char> {
    match meta_get(document(content).0, "name"@) {
        Some(n) => n,
        None => default_name,
    }
}

pub open spec fn skill_description(content: Seq<char>) -> Seq<char> {
    match meta_get(document(content).0, "description"@) {
        Some(d) => d,
        None => first_paragraph(document(content).1),
    }
}

pub open spec fn skill_context(content: Seq<char>) -> SkillContext {
    if meta_get(document(content).0, "context"@) == Some("fork"@) {
        SkillContext::Fork
    } else {
        SkillContext::Inline
    }
}

pub open spec fn skill_disabled(content: Seq<char>) -> bool {
    meta_get(document(content).0, "disable-model-invocation"@) == Some("true"@)
}

pub open spec fn meta_view(es: Seq<(Vec<char>, Vec<char>)>) -> Seq<(Seq<char>, Seq<char>)> {
    es.map_values(|e: (Vec<char>, Vec<char>)| (e.0@, e.1@))
}

fn meta_entry_exec(line: &[char]) -> (r: Option<(Vec<char>, Vec<char>)>)
    ensures
        match r {
            Some((k, v)) => meta_entry(line@) == Some((k@, v@)),
            None => meta_entry(line@) is None,
        },
{
    let l = trim_exec(line);
    let colon = chars_of(":");
    match find_exec(&l, &colon, 0) {
        Some(p) => {
            assert(colon@.len() == colon.len() && l@.len() == l.len());
            let k = slice_of(&l, 0, p);
            let v = slice_of(&l, p + colon.len(), l.len());
            Some((trim_exec(&k), trim_exec(&v)))
        },
        None => None,
    }
}

fn meta_entries_exec(ls: &Vec<Vec<char>>) -> (r: Vec<(Vec<char>, Vec<char>)>)
    ensures
        meta_view(r@) == meta_entries(ls@.map_values(|p: Vec<char>| p@)),
{
    let ghost lv = ls@.map_values(|p: Vec<char>| p@);
    let mut r: Vec<(Vec<char>, Vec<char>)> = Vec::new();
    let mut i: usize = 0;
    while i < ls.len()
        invariant
            i <= ls.len(),
            lv == ls@.map_values(|p: Vec<char>| p@),
            meta_view(r@) == meta_entries(lv.subrange(0, i as int)),
        decreases ls.len() - i,
    {
        proof {
            let next = lv.subrange(0, i + 1);
            assert(next.drop_last() =~= lv.subrange(0, i as int));
            assert(next.last() == ls@[i as int]@);
        }
        match meta_entry_exec(&ls[i]) {
            Some(e) => {
                let ghost before = r@;
                r.push(e);
                assert(meta_view(r@) =~= meta_view(before).push((e.0@, e.1@)));
            },
            None => {},
        }
        i = i + 1;
    }
    assert(lv.subrange(0, ls.len() as int) =~= lv);
    r
}

fn meta_get_exec<'a>(es: &'a Vec<(Vec<char>, Vec<char>)>, key: &str) -> (r: Option<&'a Vec<char>>)
    ensures
        match r {
            Some(v) => meta_get(meta_view(es@), key@) == Some(v@),
            None => meta_get(meta_view(es@), key@) is None,
        },
{
    let k = chars_of(key);
    let mut found: Option<&'a Vec<char>> = None;
    let mut i: usize = 0;
    while i < es.len()
        invariant
            i <= es.len(),
            k@ == key@,
            match found {
                Some(v) => meta_get(meta_view(es@.subrange(0, i as int)), key@) == Some(v@),
                None => meta_get(meta_view(es@.subrange(0, i as int)), key@) is None,
            },
        decreases es.len() - i,
    {
        proof {
            let next = meta_view(es@.subrange(0, i + 1));
            assert(next.drop_last() =~= meta_view(es@.subrange(0, i as int)));
            assert(next.last() == (es@[i as int].0@, es@[i as int].1@));
        }
        if same_chars(&es[i].0, &k) {
            found = Some(&es[i].1);
        }
        i = i + 1;
    }
    assert(es@.subrange(0, es.len() as int) =~= es@);
    found
}

fn front_matter_exec(content: &[char]) -> (r: Option<(Vec<char>, Vec<char>)>)
    ensures
        match r {
            Some((h, b)) => front_matter(content@) == Some((h@, b@)),
            None => front_matter(content@) is None,
        },
{
    let open = chars_of("---");
    let close = chars_of("\n---");
    assert(open@.len() == open.len() && close@.len() == close.len() && content@.len() == content.len());
    if open.len() > content.len() {
        return None;
    }
    let head = slice_of(content, 0, open.len());
    if !same_chars(&head, &open) {
        return None;
    }
    let rest = slice_of(content, open.len(), content.len());
    match find_exec(&rest, &close, 0) {
        Some(e) => {
            let h = slice_of(&rest, 0, e);
            let tail = slice_of(&rest, e + close.len(), rest.len());
            Some((h, trim_start_exec(&tail)))
        },
        None => None,
    }
}

proof fn lemma_trim_start_prefix(s: Seq<char>, i: int)
    requires
        0 <= i <= s.len(),
        forall|j: int| 0 <= j < i ==> is_space_spec(s[j]),
        i == s.len() || !is_space_spec(s[i]),
    ensures
        trim_start(s) == s.subrange(i, s.len() as int),
    decreases i,
{
    if i > 0 {
        let t = s.drop_first();
        assert forall|j: int| 0 <= j < i - 1 implies is_space_spec(t[j]) by {
            assert(t[j] == s[j + 1]);
        }
        lemma_trim_start_prefix(t, i - 1);
        assert(t.subrange(i - 1, t.len() as int) =~= s.subrange(i, s.len() as int));
    } else {
        assert(s.subrange(0, s.len() as int) =~= s);
    }
}

fn trim_start_exec(v: &[char]) -> (r: Vec<char>)
    ensures
        r@ == trim_start(v@),
{
    let mut a: usize = 0;
    while a < v.len() && is_space(v[a])
        invariant
            a <= v.len(),
            forall|j: int| 0 <= j < a ==> is_space_spec(v@[j]),
        decreases v.len() - a,
    {
        a = a + 1;
    }
    proof {
        lemma_trim_start_prefix(v@, a as int);
    }
    slice_of(v, a, v.len())
}

fn is_blank_exec(l: &[char]) -> (r: bool)
    ensures
        r == is_blank(l@),
{
    trim_exec(l).len() == 0
}

fn lines_exec(s: &[char]) -> (r: Vec<Vec<char>>)
    ensures
        r@.map_values(|p: Vec<char>| p@) == lines(s@),
{
    let pieces = split_on_exec(s, '\n');
    let ghost pv = pieces@.map_values(|p: Vec<char>| p@);
    let mut r: Vec<Vec<char>> = Vec::new();
    let mut i: usize = 0;
    while i < pieces.len()
        invariant
            i <= pieces.len(),
            pv == pieces@.map_values(|p: Vec<char>| p@),
            r.len() == i,
            forall|k: int| 0 <= k < i ==> r@[k]@ == line_text(pv[k]),
        decreases pieces.len() - i,
    {
        let p = &pieces[i];
        let n = p.len();
        if n > 0 && p[n - 1] == '\r' {
            r.push(slice_of(p, 0, n - 1));
            assert(p@.drop_last() =~= p@.subrange(0, n - 1));
        } else {
            r.push(slice_of(p, 0, n));
            assert(p@ =~= p@.subrange(0, n as int));
        }
        i = i + 1;
    }
    assert(r@.map_values(|p: Vec<char>| p@) =~= lines(s@));
    r
}

proof fn lemma_skip_blank(ls: Seq<Seq<char>>, i: int)
    requires
        0 <= i <= ls.len(),
        forall|j: int| 0 <= j < i ==> is_blank(ls[j]),
        i == ls.len() || !is_blank(ls[i]),
    ensures
        skip_blank(ls) == ls.subrange(i, ls.len() as int),
    decreases i,
{
    if i > 0 {
        let t = ls.drop_first();
        assert forall|j: int| 0 <= j < i - 1 implies is_blank(t[j]) by {
            assert(t[j] == ls[j + 1]);
        }
        lemma_skip_blank(t, i - 1);
        assert(t.subrange(i - 1, t.len() as int) =~= ls.subrange(i, ls.len() as int));
    } else {
        assert(ls.subrange(0, ls.len() as int) =~= ls);
    }
}

proof fn lemma_take_filled(ls: Seq<Seq<char>>, j: int)
    requires
        0 <= j <= ls.len(),
        forall|k: int| 0 <= k < j ==> !is_blank(ls[k]),
        j == ls.len() || is_blank(ls[j]),
    ensures
        take_filled(ls) == ls.subrange(0, j),
    decreases j,
{
    if j > 0 {
        let t = ls.drop_first();
        assert forall|k: int| 0 <= k < j - 1 implies !is_blank(t[k]) by {
            assert(t[k] == ls[k + 1]);
        }
        lemma_take_filled(t, j - 1);
        assert(seq![ls[0]] + t.subrange(0, j - 1) =~= ls.subrange(0, j));
    } else {
        assert(ls.subrange(0, 0) =~= Seq::<Seq<char>>::empty());
    }
}

fn extract_first_paragraph(s: &[char]) -> (r: Vec<char>)
    ensures
        r@ == first_paragraph(s@),
{
    let ls = lines_exec(s);
    let ghost lv = ls@.map_values(|p: Vec<char>| p@);
    let n = ls.len();
    let mut i: usize = 0;
    while i < n && is_blank_exec(&ls[i])
        invariant
            i <= n == ls.len(),
            lv == ls@.map_values(|p: Vec<char>| p@),
            forall|k: int| 0 <= k < i ==> is_blank(lv[k]),
        decreases n - i,
    {
        i = i + 1;
    }
    let mut para: Vec<Vec<char>> = Vec::new();
    let mut j: usize = i;
    while j < n && !is_blank_exec(&ls[j])
        invariant
            i <= j <= n == ls.len(),
            lv == ls@.map_values(|p: Vec<char>| p@),
            para@.map_values(|p: Vec<char>| p@) == lv.subrange(i as int, j as int),
            forall|k: int| i <= k < j ==> !is_blank(lv[k]),
        decreases n - j,
    {
        let ghost before = para@;
        let line = slice_of(&ls[j], 0, ls[j].len());
        proof {
            assert(ls@[j as int]@.subrange(0, ls@[j as int]@.len() as int) =~= ls@[j as int]@);
            assert(lv[j as int] == ls@[j as int]@);
        }
        para.push(line);
        assert(para@ == before.push(line));
        assert(para@.map_values(|p: Vec<char>| p@) =~= before.map_values(|p: Vec<char>| p@).push(line@));
        assert(para@.map_values(|p: Vec<char>| p@) =~= lv.subrange(i as int, j + 1));
        j = j + 1;
    }
    proof {
        lemma_skip_blank(lv, i as int);
        let t = lv.subrange(i as int, n as int);
        assert forall|k: int| 0 <= k < j - i implies !is_blank(t[k]) by {
            assert(t[k] == lv[i + k]);
        }
        lemma_take_filled(t, j - i);
        assert(t.subrange(0, j - i) =~= lv.subrange(i as int, j as int));
    }
    let joined = join_exec(&para, " ");
    if joined.len() <= 200 {
        joined
    } else {
        slice_of(&joined, 0, 200)
    }
}

/// The header pairs and the body of a skill document.
fn parse_frontmatter(content: &[char]) -> (r: (Vec<(Vec<char>, Vec<char>)>, Vec<char>))
    ensures
        meta_view(r.0@) == document(content@).0,
        r.1@ == document(content@).1,
{
    match front_matter_exec(content) {
        Some((h, b)) => {
            let ls = split_on_exec(&h, '\n');
            (meta_entries_exec(&ls), b)
        },
        None => {
            let e: Vec<(Vec<char>, Vec<char>)> = Vec::new();
            assert(meta_view(e@) =~= Seq::empty());
            (e, slice_of(content, 0, content.len()))
        },
    }
}

/// The placeholders for the argument at `i`: `$ARGUMENTS[i]`, then `$i`.
pub open spec fn argument_step(s: Seq<char>, i: nat, arg: Seq<char>) -> Seq<char> {
    replace(replace(s, "$ARGUMENTS["@ + decimal(i) + "]"@, arg), "$"@ + decimal(i), arg)
}

/// `script` with the placeholders of the first `k` arguments filled in, in order.
pub open spec fn fill_arguments(script: Seq<char>, args: Seq<Seq<char>>, k: nat) -> Seq<char>
    decreases k,
{
    if k == 0 || k > args.len() {
        script
    } else {
        argument_step(fill_arguments(script, args, (k - 1) as nat), (k - 1) as nat, args[k - 1])
    }
}

/// A script rendered with the argument string `args`: each word fills its indexed
/// placeholders, then `$ARGUMENTS` takes the whole string.
pub open spec fn rendered(script: Seq<char>, args: Seq<char>) -> Seq<char> {
    replace(fill_arguments(script, words(args), words(args).len()), "$ARGUMENTS"@, args)
}

impl Skill {
    /// The line `- name: description` that announces this skill to the model.
    pub fn to_prompt_hint(&self) -> (r: String)
        ensures
            r@ == hint(self.name@, self.description@),
    {
        let mut v: Vec<char> = Vec::new();
        append_str(&mut v, "- ");
        append_str(&mut v, self.name.as_str());
        append_str(&mut v, ": ");
        append_str(&mut v, self.description.as_str());
        string_of(&v)
    }

    /// Reads a skill document. The header's `name` (else `default_name`), `description`
    /// (else the body's first paragraph), `context` and `disable-model-invocation` set the
    /// fields; the body is the script. A name or description that breaks the rules is refused.
    pub fn parse(content: &str, default_name: &str) -> (r: Result<Skill, SkillError>)
        ensures
            match r {
                Ok(sk) => {
                    &&& valid_name(skill_name(content@, default_name@))
                    &&& valid_description(skill_description(content@))
                    &&& sk.name@ == skill_name(content@, default_name@)
                    &&& sk.description@ == skill_description(content@)
                    &&& sk.context == skill_context(content@)
                    &&& sk.disable_model_invocation == skill_disabled(content@)
                    &&& sk.script@ == document(content@).1
                },
                Err(SkillError::InvalidName(n)) => {
                    &&& !valid_name(skill_name(content@, default_name@))
                    &&& n@ == skill_name(content@, default_name@)
                },
                Err(SkillError::InvalidDescription) => {
                    &&& valid_name(skill_name(content@, default_name@))
                    &&& !valid_description(skill_description(content@))
                },
            },
    {
        let c = chars_of(content);
        let (meta, script) = parse_frontmatter(&c);
        let name = match meta_get_exec(&meta, "name") {
            Some(n) => string_of(n),
            None => string_of(&chars_of(default_name)),
        };
        let description = match meta_get_exec(&meta, "description") {
            Some(d) => string_of(d),
            None => string_of(&extract_first_paragraph(&script)),
        };
        let fork = chars_of("fork");
        let context = match meta_get_exec(&meta, "context") {
            Some(v) => if same_chars(v, &fork) {
                SkillContext::Fork
            } else {
                SkillContext::Inline
            },
            None => SkillContext::Inline,
        };
        let yes = chars_of("true");
        let disable_model_invocation = match meta_get_exec(&meta, "disable-model-invocation") {
            Some(v) => same_chars(v, &yes),
            None => false,
        };
        if !is_valid_name(name.as_str()) {
            return Err(SkillError::InvalidName(name));
        }
        if !is_valid_description(description.as_str()) {
            return Err(SkillError::InvalidDescription);
        }
        Ok(Skill { name, description, context, disable_model_invocation, script: string_of(&script) })
    }

    /// The script with its placeholders filled from `args`: `$ARGUMENTS[i]` and `$i` take
    /// the `i`-th word, `$ARGUMENTS` the whole string.
    pub fn render(&self, args: &str) -> (r: String)
        ensures
            r@ == rendered(self.script@, args@),
    {
        let a = chars_of(args);
        let parts = words_exec(&a);
        let ghost pv = parts@.map_values(|p: Vec<char>| p@);
        let mut result = chars_of(self.script.as_str());
        let mut i: usize = 0;
        while i < parts.len()
            invariant
                i <= parts.len(),
                pv == parts@.map_values(|p: Vec<char>| p@),
                pv == words(args@),
                result@ == fill_arguments(self.script@, pv, i as nat),
            decreases parts.len() - i,
        {
            let digits = decimal_exec(i);
            let mut indexed = chars_of("$ARGUMENTS[");
            append(&mut indexed, &digits);
            append_str(&mut indexed, "]");
            let mut short = chars_of("$");
            append(&mut short, &digits);
            let step = replace_exec(&result, &indexed, &parts[i]);
            result = replace_exec(&step, &short, &parts[i]);
            assert(pv[i as int] == parts@[i as int]@);
            i = i + 1;
        }
        let whole = chars_of("$ARGUMENTS");
        let out = replace_exec(&result, &whole, &a);
        string_of(&out)
    }
}

} // verus!
