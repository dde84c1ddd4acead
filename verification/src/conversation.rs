//! Branching conversations: a tree of nodes, each carrying the line an NPC
//! says and the choices the player may answer with. A node without choices
//! ends the conversation.

use vstd::prelude::*;

verus! {

/// One node of a conversation: a line, and possibly choices to answer with.
#[derive(Debug)]
pub struct Converse {
    pub line: String,
    pub choices: Option<Vec<Choices>>,
}

/// One choice the player can pick: the label shown, and the node the
/// conversation continues with. Every choice must lead somewhere.
#[derive(Debug)]
pub struct Choices {
    pub choice: String,
    pub next: Converse,
}

/// The mathematical shape of a conversation node.
#[verifier::ext_equal]
pub ghost struct ConverseModel {
    pub line: Seq<char>,
    pub choices: Option<Seq<ChoiceModel>>,
}

/// The mathematical shape of a choice.
#[verifier::ext_equal]
pub ghost struct ChoiceModel {
    pub choice: Seq<char>,
    pub next: ConverseModel,
}

/// The shape of a conversation node.
pub open spec fn converse_view(c: Converse) -> ConverseModel
    decreases c,
{
    ConverseModel {
        line: c.line@,
        choices: match c.choices {
            Some(v) => Some(choices_view(v@)),
            None => None,
        },
    }
}

/// The shape of one choice.
pub open spec fn choice_view(ch: Choices) -> ChoiceModel
    decreases ch,
{
    ChoiceModel { choice: ch.choice@, next: converse_view(ch.next) }
}

/// The shapes of a run of choices, in order.
pub open spec fn choices_view(s: Seq<Choices>) -> Seq<ChoiceModel>
    decreases s,
{
    if s.len() == 0 {
        Seq::empty()
    } else {
        choices_view(s.drop_last()).push(choice_view(s.last()))
    }
}

impl View for Converse {
    type V = ConverseModel;

    open spec fn view(&self) -> ConverseModel {
        converse_view(*self)
    }
}

impl View for Choices {
    type V = ChoiceModel;

    open spec fn view(&self) -> ChoiceModel {
        choice_view(*self)
    }
}

pub proof fn lemma_choices_view_len(s: Seq<Choices>)
    ensures
        choices_view(s).len() == s.len(),
    decreases s,
{
    if s.len() > 0 {
        lemma_choices_view_len(s.drop_last());
    }
}

pub proof fn lemma_choices_view_index(s: Seq<Choices>, i: int)
    requires
        0 <= i < s.len(),
    ensures
        choices_view(s).len() == s.len(),
        choices_view(s)[i] == choice_view(s[i]),
    decreases s,
{
    lemma_choices_view_len(s);
    if i < s.len() - 1 {
        lemma_choices_view_index(s.drop_last(), i);
    }
}

/// A node without choices — where a conversation bottoms out.
pub open spec fn is_leaf(m: ConverseModel) -> bool {
    match m.choices {
        Some(cs) => cs.len() == 0,
        None => true,
    }
}

impl Converse {
    /// Creates a new conversation node.
    pub fn new(line: String, choices: Option<Vec<Choices>>) -> (r: Self)
        ensures
            r.line == line,
            r.choices == choices,
    {
        Converse { line, choices }
    }
}

impl Choices {
    /// Creates a new choice.
    pub fn new(choice: String, next: Converse) -> (r: Self)
        ensures
            r.choice == choice,
            r.next == next,
    {
        Choices { choice, next }
    }
}

/// The labels of the choices, in the order they are offered; rendering
/// numbers them 1-first.
pub fn conversation_menu(choices: &Vec<Choices>) -> (options: Vec<String>)
    ensures
        options.deep_view().len() == choices@.len(),
        forall|i: int|
            0 <= i < choices@.len() ==> options.deep_view()[i] == choices@[i].choice@,
{
    let mut options: Vec<String> = Vec::new();
    let mut i: usize = 0;
    while i < choices.len()
        invariant
            i <= choices@.len(),
            options.deep_view().len() == i,
            forall|j: int| 0 <= j < i ==> options.deep_view()[j] == choices@[j].choice@,
        decreases choices@.len() - i,
    {
        let ghost old_dv = options.deep_view();
        options.push(choices[i].choice.clone());
        proof {
            assert(options.deep_view() =~= old_dv.push(choices@[i as int].choice@));
        }
        i = i + 1;
    }
    options
}

/// Copies a whole conversation tree; the copy has the same shape.
pub fn clone_converse(c: &Converse) -> (r: Converse)
    ensures
        converse_view(r) == converse_view(*c),
    decreases *c,
{
    let line = c.line.clone();
    let choices: Option<Vec<Choices>> = match &c.choices {
        None => None,
        Some(v) => {
            let mut out: Vec<Choices> = Vec::new();
            let mut i: usize = 0;
            while i < v.len()
                invariant
                    i <= v@.len(),
                    out@.len() == i,
                    forall|j: int|
                        0 <= j < i ==> choice_view(out@[j]) == choice_view(v@[j]),
                    decreases_to!(*c => *v),
                decreases v@.len() - i,
            {
                proof {
                    assert(decreases_to!(*v => v@));
                    assert(decreases_to!(v@ => v@[i as int]));
                }
                let label = v[i].choice.clone();
                let next = clone_converse(&v[i].next);
                out.push(Choices { choice: label, next });
                i = i + 1;
            }
            proof {
                lemma_choices_view_pointwise(out@, v@);
            }
            Some(out)
        },
    };
    Converse { line, choices }
}

pub proof fn lemma_choices_view_pointwise(a: Seq<Choices>, b: Seq<Choices>)
    requires
        a.len() == b.len(),
        forall|i: int| 0 <= i < a.len() ==> choice_view(a[i]) == choice_view(b[i]),
    ensures
        choices_view(a) == choices_view(b),
    decreases a,
{
    if a.len() > 0 {
        assert(forall|i: int|
            0 <= i < a.drop_last().len() ==> choice_view(a.drop_last()[i]) == choice_view(
                b.drop_last()[i],
            ));
        lemma_choices_view_pointwise(a.drop_last(), b.drop_last());
    }
}

} // verus!
