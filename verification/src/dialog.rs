//! The dialog engine: walks a conversation tree one player answer at a time.
//!
//! The engine keeps the root of the tree and a cursor — the list of choice
//! indices taken so far — instead of copying subtrees while it walks. A
//! number picks the 1-indexed choice at the current node, the quit words
//! abandon the conversation, and anything else re-prompts at the same node.

use vstd::prelude::*;

use crate::conversation::{
    choice_view, choices_view, clone_converse, conversation_menu, converse_view, is_leaf,
    lemma_choices_view_index, lemma_choices_view_len, Choices, Converse, ConverseModel,
};
use crate::text::{check_quit_word, first_word, is_quit_word, parse_i32, parse_i32_spec,
    split_words, words_of};

verus! {

/// The node a cursor points at.
pub open spec fn node_at(m: ConverseModel, path: Seq<usize>) -> ConverseModel
    decreases path.len(),
{
    if path.len() == 0 {
        m
    } else {
        node_at(m.choices->0[path[0] as int].next, path.drop_first())
    }
}

/// A cursor that only ever took choices that were offered.
pub open spec fn valid_path(m: ConverseModel, path: Seq<usize>) -> bool
    decreases path.len(),
{
    path.len() == 0 || {
        &&& m.choices is Some
        &&& (path[0] as int) < m.choices->0.len()
        &&& valid_path(m.choices->0[path[0] as int].next, path.drop_first())
    }
}

/// Taking one more offered choice keeps a cursor valid and moves it to that
/// choice's node.
pub proof fn lemma_path_snoc(m: ConverseModel, path: Seq<usize>, k: usize)
    requires
        valid_path(m, path),
        node_at(m, path).choices is Some,
        (k as int) < node_at(m, path).choices->0.len(),
    ensures
        valid_path(m, path.push(k)),
        node_at(m, path.push(k)) == node_at(m, path).choices->0[k as int].next,
    decreases path.len(),
{
    if path.len() == 0 {
        let next = m.choices->0[k as int].next;
        assert(node_at(m, path) == m);
        assert(path.push(k).len() == 1);
        assert(path.push(k)[0] == k);
        assert(path.push(k).drop_first() =~= Seq::<usize>::empty());
        assert(valid_path(next, Seq::<usize>::empty()));
        assert(node_at(next, Seq::<usize>::empty()) == next);
        assert(valid_path(m, path.push(k)));
        assert(node_at(m, path.push(k)) == next);
    } else {
        let next = m.choices->0[path[0] as int].next;
        assert(valid_path(next, path.drop_first()));
        assert(node_at(m, path) == node_at(next, path.drop_first()));
        assert(path.push(k)[0] == path[0]);
        assert(path.push(k).drop_first() =~= path.drop_first().push(k));
        lemma_path_snoc(next, path.drop_first(), k);
        assert(valid_path(m, path.push(k)));
        assert(node_at(m, path.push(k)) == node_at(next, path.push(k).drop_first()));
    }
}

/// How deep the conversation goes when the first listed choice is taken at
/// every node.
pub open spec fn first_depth(m: ConverseModel) -> nat
    decreases m,
{
    if is_leaf(m) {
        0
    } else {
        1 + first_depth(m.choices->0[0].next)
    }
}

/// The cursor that takes the first listed choice at every node.
pub open spec fn first_path(m: ConverseModel) -> Seq<usize>
    decreases m,
{
    if is_leaf(m) {
        Seq::empty()
    } else {
        seq![0usize] + first_path(m.choices->0[0].next)
    }
}

/// Taking the first listed choice at every node is a valid traversal that
/// ends at a leaf after exactly the first-choice depth many steps.
pub proof fn lemma_first_choice_reaches_leaf(m: ConverseModel)
    ensures
        valid_path(m, first_path(m)),
        is_leaf(node_at(m, first_path(m))),
        first_path(m).len() == first_depth(m),
    decreases m,
{
    if !is_leaf(m) {
        let rest = first_path(m.choices->0[0].next);
        lemma_first_choice_reaches_leaf(m.choices->0[0].next);
        assert(first_path(m)[0] == 0usize);
        assert(first_path(m).drop_first() =~= rest);
    }
}

/// What the engine answers to one line of player input.
#[derive(Clone, Copy, PartialEq, Eq, Structural, Debug)]
pub enum DialogReply {
    /// Empty or unrecognized input: re-prompt at the same node.
    Invalid,
    /// A number, but no choice carries it: re-prompt at the same node.
    NotAValidChoice,
    /// The player abandoned the conversation.
    Quit,
    /// Moved to the chosen node; its line (and menu, unless it is a leaf)
    /// come next.
    Advanced,
}

/// The dialog engine: the tree being walked, the cursor into it, and whether
/// the conversation is over.
#[derive(Debug)]
pub struct DialogEngine {
    pub root: Converse,
    pub path: Vec<usize>,
    pub done: bool,
}

impl DialogEngine {
    /// The cursor only ever took choices that were offered.
    pub open spec fn path_ok(self) -> bool {
        valid_path(self.root@, self.path@)
    }

    /// The engine never stands on a node it was not offered, and it is only
    /// still listening while the current node offers choices.
    pub open spec fn wf(self) -> bool {
        &&& self.path_ok()
        &&& (!self.done ==> !is_leaf(self.current()))
    }

    /// The node the cursor points at.
    pub open spec fn current(self) -> ConverseModel {
        node_at(self.root@, self.path@)
    }

    /// Opens a conversation at its root; one that offers no choices is over
    /// at once.
    pub fn new(conversation: &Converse) -> (e: DialogEngine)
        ensures
            e.wf(),
            e.root@ == conversation@,
            e.path@ == Seq::<usize>::empty(),
            e.current() == conversation@,
            e.done == is_leaf(conversation@),
    {
        let root = clone_converse(conversation);
        let done = match &root.choices {
            None => true,
            Some(v) => {
                proof {
                    lemma_choices_view_len(v@);
                }
                v.len() == 0
            },
        };
        DialogEngine { root, path: Vec::new(), done }
    }

    /// A reference to the node the cursor points at.
    pub fn current_node(&self) -> (c: &Converse)
        requires
            self.path_ok(),
        ensures
            converse_view(*c) == self.current(),
    {
        let mut cur: &Converse = &self.root;
        let n = self.path.len();
        proof {
            assert(self.path@.skip(0) =~= self.path@);
        }
        let mut i: usize = 0;
        while i < n
            invariant
                i <= n,
                n == self.path@.len(),
                valid_path(converse_view(*cur), self.path@.skip(i as int)),
                node_at(converse_view(*cur), self.path@.skip(i as int)) == self.current(),
            decreases n - i,
        {
            proof {
                assert(self.path@.skip(i as int)[0] == self.path@[i as int]);
            }
            match &cur.choices {
                Some(v) => {
                    proof {
                        lemma_choices_view_len(v@);
                        lemma_choices_view_index(v@, self.path@[i as int] as int);
                        assert(self.path@.skip(i as int).drop_first() =~= self.path@.skip(i + 1));
                    }
                    let k = self.path[i];
                    cur = &v[k].next;
                },
                None => {
                    proof {
                        assert(false);
                    }
                },
            }
            i = i + 1;
        }
        proof {
            assert(self.path@.skip(n as int) =~= Seq::<usize>::empty());
        }
        cur
    }

    /// The line the current node speaks.
    pub fn line(&self) -> (l: String)
        requires
            self.path_ok(),
        ensures
            l@ == self.current().line,
    {
        self.current_node().line.clone()
    }

    /// The labels of the choices at the current node, in order; an empty
    /// menu at a leaf.
    pub fn menu(&self) -> (labels: Vec<String>)
        requires
            self.path_ok(),
        ensures
            (match self.current().choices {
                Some(cs) => labels.deep_view().len() == cs.len() && (forall|i: int|
                    0 <= i < cs.len() ==> labels.deep_view()[i] == cs[i].choice),
                None => labels.deep_view().len() == 0,
            }),
    {
        let node = self.current_node();
        match &node.choices {
            Some(v) => {
                let labels = conversation_menu(v);
                proof {
                    lemma_choices_view_len(v@);
                    assert forall|i: int| 0 <= i < v@.len() implies #[trigger] choices_view(v@)[i]
                        == choice_view(v@[i]) by {
                        lemma_choices_view_index(v@, i);
                    }
                }
                labels
            },
            None => Vec::new(),
        }
    }

    /// Answers one line of player input: a number in range advances to that
    /// choice's node, the quit words abandon the conversation, and anything
    /// else — the empty line, a word that is no number, a number no choice
    /// carries — changes nothing and asks again.
    pub fn handle_line(&mut self, input: &str) -> (r: DialogReply)
        requires
            old(self).wf(),
            !old(self).done,
        ensures
            final(self).wf(),
            final(self).root == old(self).root,
            ({
                let ws = words_of(input@);
                let w0 = first_word(ws);
                let parsed = parse_i32_spec(w0);
                &&& (ws.len() == 0 ==> r is Invalid && *final(self) == *old(self))
                &&& (ws.len() > 0 && is_quit_word(w0) ==> r is Quit && final(self).done
                    && final(self).path == old(self).path)
                &&& (ws.len() > 0 && !is_quit_word(w0) && parsed is Some ==> {
                    let n = parsed->0;
                    if 1 <= n <= old(self).current().choices->0.len() {
                        &&& r is Advanced
                        &&& final(self).path@ == old(self).path@.push((n - 1) as usize)
                        &&& final(self).current() == old(self).current().choices->0[n - 1].next
                        &&& final(self).done == is_leaf(final(self).current())
                    } else {
                        r is NotAValidChoice && *final(self) == *old(self)
                    }
                })
                &&& (ws.len() > 0 && !is_quit_word(w0) && parsed is None ==> r is Invalid
                    && *final(self) == *old(self))
            }),
    {
        let words = split_words(input);
        if words.len() == 0 {
            return DialogReply::Invalid;
        }
        let w0 = words[0].as_str();
        proof {
            assert(w0@ == first_word(words_of(input@)));
        }
        if check_quit_word(w0) {
            self.done = true;
            return DialogReply::Quit;
        }
        match parse_i32(w0) {
            Some(n) => {
                let count = self.num_choices();
                if 1 <= n && (n as usize) <= count {
                    let k = (n as usize) - 1;
                    proof {
                        lemma_path_snoc(self.root@, self.path@, k);
                    }
                    self.path.push(k);
                    let leaf = self.at_leaf();
                    self.done = leaf;
                    DialogReply::Advanced
                } else {
                    DialogReply::NotAValidChoice
                }
            },
            None => DialogReply::Invalid,
        }
    }

    /// How many choices the current node offers.
    pub fn num_choices(&self) -> (n: usize)
        requires
            self.path_ok(),
        ensures
            n == (match self.current().choices {
                Some(cs) => cs.len(),
                None => 0,
            }),
    {
        let node = self.current_node();
        match &node.choices {
            Some(v) => {
                proof {
                    lemma_choices_view_len(v@);
                }
                v.len()
            },
            None => 0,
        }
    }

    /// Whether the current node ends the conversation.
    pub fn at_leaf(&self) -> (r: bool)
        requires
            self.path_ok(),
        ensures
            r == is_leaf(self.current()),
    {
        self.num_choices() == 0
    }

    /// Follows the first listed choice at every node until a leaf: the walk
    /// never errs, and it takes exactly the first-choice depth many steps.
    pub fn walk_first_choices(&mut self)
        requires
            old(self).wf(),
        ensures
            final(self).wf(),
            final(self).root == old(self).root,
            final(self).path@ == old(self).path@ + first_path(old(self).current()),
            is_leaf(final(self).current()),
            final(self).done,
    {
        while !self.at_leaf()
            invariant
                valid_path(self.root@, self.path@),
                self.root == old(self).root,
                old(self).path@ + first_path(old(self).current()) == self.path@ + first_path(
                    self.current(),
                ),
            decreases first_depth(self.current()),
        {
            let ghost pre = *self;
            proof {
                lemma_path_snoc(self.root@, self.path@, 0);
            }
            self.path.push(0);
            proof {
                assert(first_path(pre.current())[0] == 0usize);
                assert(first_path(pre.current()).drop_first() =~= first_path(self.current()));
                assert(pre.path@ + first_path(pre.current()) =~= self.path@ + first_path(
                    self.current(),
                ));
            }
        }
        self.done = true;
        proof {
            assert(first_path(self.current()) =~= Seq::<usize>::empty());
            assert(old(self).path@ + first_path(old(self).current()) =~= self.path@);
        }
    }
}

} // verus!
