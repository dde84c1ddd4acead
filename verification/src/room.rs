//! Rooms and the world graph: a room has a name, a description, reactions to
//! actions, exits toward other rooms, a back-navigation policy, and possibly
//! people and a conversation.
//!
//! Rooms are built top-down; an exit with a real direction must own a target
//! room, and dereferencing one that does not is an authoring error that the
//! contracts here rule out.

use vstd::prelude::*;

use crate::actions::{Action, OnAction, OnActionModel};
use crate::conversation::{clone_converse, converse_view, Converse, ConverseModel};
use crate::person::{clone_person, person_view, Person, PersonModel};
use crate::rng::random_in_range;

verus! {

/// Directions the player can move in.
#[derive(Clone, Copy, PartialEq, Eq, Structural, Debug)]
pub enum Direction {
    N,
    S,
    W,
    E,
    NONE,
    BACK,
}

/// Whether the player may go back out of this room, and the refusal shown
/// when not.
#[derive(Debug)]
pub struct GoBack {
    pub can_go_back: bool,
    pub reason: Option<String>,
}

/// The mathematical shape of a back-navigation policy.
#[verifier::ext_equal]
pub ghost struct GoBackModel {
    pub can_go_back: bool,
    pub reason: Option<Seq<char>>,
}

impl View for GoBack {
    type V = GoBackModel;

    open spec fn view(&self) -> GoBackModel {
        GoBackModel {
            can_go_back: self.can_go_back,
            reason: match self.reason {
                Some(s) => Some(s@),
                None => None,
            },
        }
    }
}

impl Clone for GoBack {
    fn clone(&self) -> (r: Self)
        ensures
            r == *self,
    {
        GoBack {
            can_go_back: self.can_go_back,
            reason: match &self.reason {
                Some(s) => Some(s.clone()),
                None => None,
            },
        }
    }
}

impl GoBack {
    pub fn new(can_go_back: bool, reason: Option<String>) -> (r: Self)
        ensures
            r.can_go_back == can_go_back,
            r.reason == reason,
    {
        GoBack { can_go_back, reason }
    }
}

/// A location: what it is called, what it looks like, what can be done here,
/// and where one can go next.
#[derive(Debug)]
pub struct Room {
    pub name: String,
    pub description: String,
    pub actions: Vec<(Action, Option<OnAction>)>,
    pub exits: Vec<Exit>,
    pub go_back: GoBack,
    pub npcs: Option<Vec<Person>>,
    pub conversation: Option<Converse>,
}

/// A directed edge of the world graph. An exit with a real direction must own
/// its target room; only a placeholder direction may stand without one.
#[derive(Debug)]
pub struct Exit {
    pub direction: Direction,
    pub room: Option<Room>,
}

/// The mathematical shape of a room.
#[verifier::ext_equal]
pub ghost struct RoomModel {
    pub name: Seq<char>,
    pub description: Seq<char>,
    pub actions: Seq<(Action, Option<OnActionModel>)>,
    pub exits: Seq<ExitModel>,
    pub go_back: GoBackModel,
    pub npcs: Option<Seq<PersonModel>>,
    pub conversation: Option<ConverseModel>,
}

/// The mathematical shape of an exit.
#[verifier::ext_equal]
pub ghost struct ExitModel {
    pub direction: Direction,
    pub room: Option<RoomModel>,
}

/// The shape of one action-table entry.
pub open spec fn action_entry_view(e: (Action, Option<OnAction>)) -> (Action, Option<
    OnActionModel,
>) {
    (
        e.0,
        match e.1 {
            Some(a) => Some(a@),
            None => None,
        },
    )
}

/// The shape of a room.
pub open spec fn room_view(r: Room) -> RoomModel
    decreases r,
{
    RoomModel {
        name: r.name@,
        description: r.description@,
        actions: Seq::new(r.actions@.len(), |i: int| action_entry_view(r.actions@[i])),
        exits: exits_view(r.exits@),
        go_back: r.go_back@,
        npcs: match r.npcs {
            Some(v) => Some(Seq::new(v@.len(), |i: int| person_view(v@[i]))),
            None => None,
        },
        conversation: match r.conversation {
            Some(c) => Some(converse_view(c)),
            None => None,
        },
    }
}

/// The shape of one exit.
pub open spec fn exit_view(e: Exit) -> ExitModel
    decreases e,
{
    ExitModel {
        direction: e.direction,
        room: match e.room {
            Some(r) => Some(room_view(r)),
            None => None,
        },
    }
}

/// The shapes of a run of exits, in order.
pub open spec fn exits_view(s: Seq<Exit>) -> Seq<ExitModel>
    decreases s,
{
    if s.len() == 0 {
        Seq::empty()
    } else {
        exits_view(s.drop_last()).push(exit_view(s.last()))
    }
}

impl View for Room {
    type V = RoomModel;

    open spec fn view(&self) -> RoomModel {
        room_view(*self)
    }
}

impl View for Exit {
    type V = ExitModel;

    open spec fn view(&self) -> ExitModel {
        exit_view(*self)
    }
}

pub proof fn lemma_exits_view_len(s: Seq<Exit>)
    ensures
        exits_view(s).len() == s.len(),
    decreases s,
{
    if s.len() > 0 {
        lemma_exits_view_len(s.drop_last());
    }
}

pub proof fn lemma_exits_view_index(s: Seq<Exit>, i: int)
    requires
        0 <= i < s.len(),
    ensures
        exits_view(s).len() == s.len(),
        exits_view(s)[i] == exit_view(s[i]),
    decreases s,
{
    lemma_exits_view_len(s);
    if i < s.len() - 1 {
        lemma_exits_view_index(s.drop_last(), i);
    }
}

pub proof fn lemma_exits_view_pointwise(a: Seq<Exit>, b: Seq<Exit>)
    requires
        a.len() == b.len(),
        forall|i: int| 0 <= i < a.len() ==> exit_view(a[i]) == exit_view(b[i]),
    ensures
        exits_view(a) == exits_view(b),
    decreases a,
{
    if a.len() > 0 {
        assert(forall|i: int|
            0 <= i < a.drop_last().len() ==> exit_view(a.drop_last()[i]) == exit_view(
                b.drop_last()[i],
            ));
        lemma_exits_view_pointwise(a.drop_last(), b.drop_last());
    }
}

/// A well-formed exit: a real direction owns a target room, and the target in
/// turn is well formed.
pub open spec fn wf_exit(e: ExitModel) -> bool
    decreases e,
{
    &&& (e.direction != Direction::NONE ==> e.room is Some)
    &&& (match e.room {
        Some(r) => wf_room(r),
        None => true,
    })
}

/// A well-formed room: every exit is well formed.
pub open spec fn wf_room(m: RoomModel) -> bool
    decreases m,
{
    forall|i: int| 0 <= i < m.exits.len() ==> wf_exit(#[trigger] m.exits[i])
}

/// The first exit that leaves in the given direction, if any.
pub open spec fn find_exit(s: Seq<ExitModel>, d: Direction) -> Option<ExitModel>
    decreases s.len(),
{
    if s.len() == 0 {
        None
    } else if s[0].direction == d {
        Some(s[0])
    } else {
        find_exit(s.drop_first(), d)
    }
}

/// The reaction mapped to an action: the first entry for it that actually
/// carries one.
pub open spec fn find_action(s: Seq<(Action, Option<OnActionModel>)>, a: Action) -> Option<
    OnActionModel,
>
    decreases s.len(),
{
    if s.len() == 0 {
        None
    } else if s[0].0 == a && s[0].1 is Some {
        Some(s[0].1->0)
    } else {
        find_action(s.drop_first(), a)
    }
}

/// A found exit is one of the room's exits, so whatever holds of each of
/// them holds of it.
pub proof fn lemma_find_exit_element(s: Seq<ExitModel>, d: Direction)
    requires
        find_exit(s, d) is Some,
    ensures
        exists|i: int| 0 <= i < s.len() && s[i] == find_exit(s, d)->0,
        find_exit(s, d)->0.direction == d,
    decreases s.len(),
{
    if s.len() > 0 {
        if s[0].direction == d {
            assert(s[0] == find_exit(s, d)->0);
        } else {
            lemma_find_exit_element(s.drop_first(), d);
            let i = choose|i: int|
                0 <= i < s.drop_first().len() && s.drop_first()[i] == find_exit(
                    s.drop_first(),
                    d,
                )->0;
            assert(s[i + 1] == find_exit(s, d)->0);
        }
    }
}

/// What resolving an action in a room comes to.
#[derive(Debug)]
pub enum ActionOutcome {
    /// The room maps nothing to this action.
    NothingHere,
    /// No difficulty check: the scripted text, shown unconditionally.
    Text(String),
    /// The roll (bonus already added) beat the threshold: report the roll and
    /// show the text.
    Success { roll: i32, text: String },
    /// The roll did not beat the threshold: report the roll, withhold the
    /// text, and invite a retry. Nothing changes in the room.
    Failure { roll: i32 },
}

/// What the resolver owes for an action in a room with a given bonus: no
/// entry means nothing happens, an ungated entry shows its text, and a gated
/// entry reports some roll of the die (bonus added) — the text shown exactly
/// when the roll beat the threshold.
pub open spec fn action_outcome_ok(m: RoomModel, action: Action, bonus: i32, r: ActionOutcome) -> bool {
    match find_action(m.actions, action) {
        None => r is NothingHere,
        Some(oa) => match oa.dc_check {
            None => r matches ActionOutcome::Text(t) && t@ == oa.on_action,
            Some(dc) => (r matches ActionOutcome::Success { roll: rr, text: t } && rr > dc && 1
                + bonus <= rr <= 19 + bonus && t@ == oa.on_action) || (
            r matches ActionOutcome::Failure { roll: rr } && rr <= dc && 1 + bonus <= rr <= 19
                + bonus),
        },
    }
}

/// Decides a difficulty-gated action for one concrete roll of the die:
/// success exactly when the roll plus the bonus beats the threshold, the
/// text shown only on success.
pub fn outcome_for_roll(roll: i32, bonus: i32, text: &String, dc_check: i32) -> (r: ActionOutcome)
    requires
        1 <= roll <= 19,
        i32::MIN + 19 <= bonus <= i32::MAX - 19,
    ensures
        roll + bonus > dc_check ==> (r matches ActionOutcome::Success { roll: rr, text: t }
            && rr == roll + bonus && t@ == text@),
        roll + bonus <= dc_check ==> (r matches ActionOutcome::Failure { roll: rr } && rr == roll
            + bonus),
{
    let total = roll + bonus;
    if total > dc_check {
        ActionOutcome::Success { roll: total, text: text.clone() }
    } else {
        ActionOutcome::Failure { roll: total }
    }
}

impl Room {
    pub fn new(
        name: String,
        description: String,
        actions: Vec<(Action, Option<OnAction>)>,
        exits: Vec<Exit>,
        go_back: GoBack,
        npcs: Option<Vec<Person>>,
        conversation: Option<Converse>,
    ) -> (r: Self)
        ensures
            r.name == name,
            r.description == description,
            r.actions == actions,
            r.exits == exits,
            r.go_back == go_back,
            r.npcs == npcs,
            r.conversation == conversation,
    {
        Room { name, description, actions, exits, go_back, npcs, conversation }
    }

    pub fn describe(&self) -> (r: &String)
        ensures
            r@ == self@.description,
    {
        &self.description
    }

    pub fn name(&self) -> (r: &String)
        ensures
            r@ == self@.name,
    {
        &self.name
    }

    /// Looks up the first exit in the given direction and hands back a copy
    /// of its target room; `None` means there is no exit this way. An exit
    /// this way without a room is a broken content graph, which the caller
    /// must have ruled out.
    pub fn exit(&self, direction: Direction) -> (r: Option<Room>)
        requires
            (match find_exit(self@.exits, direction) {
                Some(e) => e.room is Some,
                None => true,
            }),
        ensures
            (match find_exit(self@.exits, direction) {
                Some(e) => r is Some && room_view(r->0) == e.room->0,
                None => r is None,
            }),
    {
        let n = self.exits.len();
        proof {
            lemma_exits_view_len(self.exits@);
            assert(self@.exits.skip(0) =~= self@.exits);
        }
        let mut i: usize = 0;
        while i < n
            invariant
                i <= n,
                n == self.exits@.len(),
                exits_view(self.exits@).len() == n,
                self@.exits == exits_view(self.exits@),
                (match find_exit(self@.exits, direction) {
                    Some(e) => e.room is Some,
                    None => true,
                }),
                find_exit(self@.exits, direction) == find_exit(
                    self@.exits.skip(i as int),
                    direction,
                ),
            decreases n - i,
        {
            proof {
                lemma_exits_view_index(self.exits@, i as int);
                assert(self@.exits.skip(i as int)[0] == self@.exits[i as int]);
            }
            let e = &self.exits[i];
            if matches_direction(e.direction, direction) {
                match &e.room {
                    Some(next_room) => {
                        let copy = clone_room(next_room);
                        return Some(copy);
                    },
                    None => {
                        // A direction with no room behind it: the content
                        // graph is broken, which the contract rules out.
                        proof {
                            assert(false);
                        }
                        return None;
                    },
                }
            }
            proof {
                assert(self@.exits.skip(i as int).drop_first() =~= self@.exits.skip(i + 1));
            }
            i = i + 1;
        }
        proof {
            assert(self@.exits.skip(n as int) =~= Seq::<ExitModel>::empty());
        }
        None
    }

    /// Resolves an action: looks the action up in the room's table; with no
    /// entry nothing happens, with an ungated entry the text is shown, and
    /// with a gated entry a die is rolled and the check decided by
    /// [`outcome_for_roll`] — a success shows the scripted text exactly
    /// once, beside the reported roll. The room itself never changes, so a
    /// failed check can simply be retried.
    pub fn do_action(&self, action: Action, bonus: i32) -> (r: ActionOutcome)
        requires
            i32::MIN + 19 <= bonus <= i32::MAX - 19,
        ensures
            action_outcome_ok(self@, action, bonus, r),
    {
        let n = self.actions.len();
        let ghost av = self@.actions;
        proof {
            assert(av.len() == self.actions@.len());
            assert(av.skip(0) =~= av);
        }
        let mut i: usize = 0;
        while i < n
            invariant
                i <= n,
                n == self.actions@.len(),
                av == self@.actions,
                av.len() == n,
                i32::MIN + 19 <= bonus <= i32::MAX - 19,
                forall|j: int| 0 <= j < av.len() ==> av[j] == action_entry_view(self.actions@[j]),
                find_action(av, action) == find_action(av.skip(i as int), action),
            decreases n - i,
        {
            proof {
                assert(av.skip(i as int)[0] == av[i as int]);
            }
            let entry = &self.actions[i];
            let matches_here = entry.0 == action;
            if matches_here {
                match &entry.1 {
                    Some(oa) => {
                        match &oa.dc_check {
                            Some(dc) => {
                                let roll = random_in_range(1, 20);
                                let r = outcome_for_roll(roll, bonus, &oa.on_action, *dc);
                                return r;
                            },
                            None => {
                                return ActionOutcome::Text(oa.on_action.clone());
                            },
                        }
                    },
                    None => {},
                }
            }
            proof {
                assert(av.skip(i as int).drop_first() =~= av.skip(i + 1));
            }
            i = i + 1;
        }
        proof {
            assert(av.skip(n as int) =~= Seq::<(Action, Option<OnActionModel>)>::empty());
        }
        ActionOutcome::NothingHere
    }
}

/// Compares two directions.
pub fn matches_direction(a: Direction, b: Direction) -> (r: bool)
    ensures
        r == (a == b),
{
    a == b
}

/// Builds an exit that owns its target room.
pub fn make_exit(direction: Direction, room: Room) -> (r: Exit)
    ensures
        r.direction == direction,
        r.room is Some,
        room_view(r.room->0) == room_view(room),
{
    Exit { direction, room: Some(room) }
}

/// Copies a whole room tree; the copy has the same shape.
pub fn clone_room(r: &Room) -> (c: Room)
    ensures
        room_view(c) == room_view(*r),
    decreases *r,
{
    let name = r.name.clone();
    let description = r.description.clone();

    let mut actions: Vec<(Action, Option<OnAction>)> = Vec::new();
    let mut i: usize = 0;
    while i < r.actions.len()
        invariant
            i <= r.actions@.len(),
            actions@.len() == i,
            forall|j: int| 0 <= j < i ==> actions@[j] == r.actions@[j],
        decreases r.actions@.len() - i,
    {
        let entry = &r.actions[i];
        let cloned_reaction = match &entry.1 {
            Some(a) => Some(a.clone()),
            None => None,
        };
        actions.push((entry.0, cloned_reaction));
        i = i + 1;
    }

    let mut exits: Vec<Exit> = Vec::new();
    let mut k: usize = 0;
    while k < r.exits.len()
        invariant
            k <= r.exits@.len(),
            exits@.len() == k,
            forall|j: int| 0 <= j < k ==> exit_view(exits@[j]) == exit_view(r.exits@[j]),
            decreases_to!(*r => r.exits@),
        decreases r.exits@.len() - k,
    {
        proof {
            assert(decreases_to!(r.exits@ => r.exits@[k as int]));
        }
        let e = &r.exits[k];
        let target = match &e.room {
            Some(inner) => Some(clone_room(inner)),
            None => None,
        };
        exits.push(Exit { direction: e.direction, room: target });
        k = k + 1;
    }
    proof {
        lemma_exits_view_pointwise(exits@, r.exits@);
    }

    let go_back = r.go_back.clone();

    let npcs: Option<Vec<Person>> = match &r.npcs {
        None => None,
        Some(v) => {
            let mut out: Vec<Person> = Vec::new();
            let mut p: usize = 0;
            while p < v.len()
                invariant
                    p <= v@.len(),
                    out@.len() == p,
                    forall|j: int| 0 <= j < p ==> person_view(out@[j]) == person_view(v@[j]),
                decreases v@.len() - p,
            {
                out.push(clone_person(&v[p]));
                p = p + 1;
            }
            Some(out)
        },
    };

    let conversation: Option<Converse> = match &r.conversation {
        None => None,
        Some(conv) => Some(clone_converse(conv)),
    };

    let c = Room { name, description, actions, exits, go_back, npcs, conversation };
    proof {
        assert(room_view(c) =~~= room_view(*r));
    }
    c
}

} // verus!
