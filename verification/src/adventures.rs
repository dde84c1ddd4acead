//! The adventure collection: listing the adventures, launching the one the
//! player picked, and the authored rooms of the Dark Harvest opening.

use vstd::prelude::*;

use crate::actions::{Action, OnAction};
use crate::callbacks::{AdventureId, SimpleCallback};
use crate::conversation::{choices_view, lemma_choices_view_index, Choices, Converse};
use crate::room::{
    find_action, lemma_exits_view_index, room_view, wf_exit, wf_room, Direction, Exit, GoBack,
    Room,
};
use crate::text::{canonical_decimal, digits_val, parse_plain_number, trimmed};

verus! {

/// A player's written choice names a menu number: the digits, written
/// canonically, give exactly that number.
pub open spec fn selects(s: Seq<char>, n: i32) -> bool {
    canonical_decimal(s) && 0 <= n && digits_val(s) == n
}

/// Numbers the adventures 1-first into a lookup list.
pub fn make_adventure_list(adventure_list: Vec<SimpleCallback>) -> (r: Vec<(i32, SimpleCallback)>)
    requires
        adventure_list@.len() <= 0x7fff_fffe,
    ensures
        r@.len() == adventure_list@.len(),
        forall|i: int|
            0 <= i < r@.len() ==> (#[trigger] r@[i]).0 == i + 1 && r@[i].1 == adventure_list@[i],
{
    let mut adventures: Vec<(i32, SimpleCallback)> = Vec::new();
    let mut i: usize = 0;
    while i < adventure_list.len()
        invariant
            i <= adventure_list@.len(),
            adventure_list@.len() <= 0x7fff_fffe,
            adventures@.len() == i,
            forall|j: int|
                0 <= j < i ==> (#[trigger] adventures@[j]).0 == j + 1 && adventures@[j].1
                    == adventure_list@[j],
        decreases adventure_list@.len() - i,
    {
        let count: i32 = (i as i32) + 1;
        adventures.push((count, adventure_list[i]));
        i = i + 1;
    }
    adventures
}

/// Launches the adventure the entered number names. Entering a number that
/// names none is a broken menu, which the contract rules out.
pub fn start_adventure(adventure: String, adventures: Vec<(i32, SimpleCallback)>) -> (r:
    AdventureId)
    requires
        exists|j: int|
            0 <= j < adventures@.len() && selects(trimmed(adventure@), (#[trigger] adventures@[j]).0),
    ensures
        exists|j: int|
            0 <= j < adventures@.len() && selects(trimmed(adventure@), (#[trigger] adventures@[j]).0)
                && r == adventures@[j].1.callback,
{
    let s = adventure.as_str();
    let n = s.unicode_len();
    let t: &str = if n > 0 && s.get_char(n - 1) == '\n' {
        s.substring_char(0, n - 1)
    } else {
        s
    };
    proof {
        assert(t@ =~= trimmed(adventure@));
    }
    match parse_plain_number(t) {
        None => {
            proof {
                let j = choose|j: int|
                    0 <= j < adventures@.len() && selects(trimmed(adventure@), adventures@[j].0);
                assert(digits_val(t@) == adventures@[j].0);
                assert(false);
            }
            AdventureId::DarkHarvest
        },
        Some(v) => {
            let mut i: usize = 0;
            while i < adventures.len()
                invariant
                    i <= adventures@.len(),
                    v == digits_val(t@),
                    canonical_decimal(t@),
                    t@ == trimmed(adventure@),
                    exists|j: int|
                        0 <= j < adventures@.len() && selects(
                            trimmed(adventure@),
                            (#[trigger] adventures@[j]).0,
                        ),
                    forall|j: int| 0 <= j < i ==> (#[trigger] adventures@[j]).0 != v,
                decreases adventures@.len() - i,
            {
                let entry = adventures[i];
                if entry.0 == v {
                    return entry.1.process();
                }
                i = i + 1;
            }
            proof {
                let j = choose|j: int|
                    0 <= j < adventures@.len() && selects(trimmed(adventure@), adventures@[j].0);
                assert(adventures@[j].0 == v);
                assert(false);
            }
            AdventureId::DarkHarvest
        },
    }
}

/// The adventures on offer, numbered for the menu.
pub fn get_adventures() -> (r: Vec<(i32, SimpleCallback)>)
    ensures
        r@.len() == 1,
        r@[0].0 == 1,
        r@[0].1.callback == AdventureId::DarkHarvest,
{
    let mut adventures: Vec<SimpleCallback> = Vec::new();
    adventures.push(SimpleCallback { callback: AdventureId::DarkHarvest });
    make_adventure_list(adventures)
}

/// The grassy clearing the story opens in: one path north, exploring is
/// free, going back is allowed.
pub fn make_starting_room() -> (r: Room)
    ensures
        wf_room(room_view(r)),
        room_view(r).name == "Grassy Clearing"@,
        room_view(r).description
            == "The sound of birds, the rustling of the wind. The warmth of the sun in the blue sky. The grassy clearing is clear, trees to the east, a small path to the north. South an west contain ruins and broken peices of what appears to be concrete"@,
        room_view(r).exits.len() == 1,
        room_view(r).exits[0].direction == Direction::N,
        room_view(r).exits[0].room is Some,
        ({
            let next = room_view(r).exits[0].room->0;
            next.name == "Path"@ && next.exits.len() == 1 && next.exits[0].direction
                == Direction::N
        }),
        room_view(r).go_back.can_go_back,
        room_view(r).conversation is None,
        (find_action(room_view(r).actions, Action::Explore) matches Some(oa) && oa.dc_check
            is None),
        find_action(room_view(r).actions, Action::Look) is None,
{
    let mut actions: Vec<(Action, Option<OnAction>)> = Vec::new();
    actions.push(
        (
            Action::Explore,
            Some(
                OnAction::new(
                    String::from_str(
                        "You look around and see nothing of interest. Exploring to the South and west show more of the ruins. They look like modern day buildings, or the left overs after nature scavanged them. After man abandonded them.",
                    ),
                    None,
                ),
            ),
        ),
    );
    let mut exits: Vec<Exit> = Vec::new();
    exits.push(crate::room::make_exit(Direction::N, make_path_way()));
    let r = Room::new(
        String::from_str("Grassy Clearing"),
        String::from_str(
            "The sound of birds, the rustling of the wind. The warmth of the sun in the blue sky. The grassy clearing is clear, trees to the east, a small path to the north. South an west contain ruins and broken peices of what appears to be concrete",
        ),
        actions,
        exits,
        GoBack::new(true, None),
        None,
        None,
    );
    proof {
        lemma_exits_view_index(r.exits@, 0);
        assert(room_view(r).actions[0] == crate::room::action_entry_view(r.actions@[0]));
        assert(room_view(r).actions.drop_first() =~= Seq::<(
            crate::actions::Action,
            Option<crate::actions::OnActionModel>,
        )>::empty());
        assert(find_action(room_view(r).actions.drop_first(), Action::Look) is None);
        assert forall|i: int| 0 <= i < room_view(r).exits.len() implies wf_exit(
            #[trigger] room_view(r).exits[i],
        ) by {
            lemma_exits_view_index(r.exits@, i);
        }
    }
    r
}

/// The shaded path: it continues north to the creek.
pub fn make_path_way() -> (r: Room)
    ensures
        wf_room(room_view(r)),
        room_view(r).name == "Path"@,
        room_view(r).description
            == "As you walk up the path the trees around seem to get thicker, taller and the area darker with shade. The path continues to go north."@,
        room_view(r).exits.len() == 1,
        room_view(r).exits[0].direction == Direction::N,
        room_view(r).exits[0].room is Some,
        room_view(r).exits[0].room->0.name == "River"@,
        room_view(r).go_back.can_go_back,
        room_view(r).conversation is None,
        (find_action(room_view(r).actions, Action::Explore) matches Some(oa) && oa.dc_check
            is None),
{
    let mut actions: Vec<(Action, Option<OnAction>)> = Vec::new();
    actions.push(
        (
            Action::Explore,
            Some(
                OnAction::new(
                    String::from_str(
                        "You look around the path, over at the trees and up at the sky. You explore your surroundings and feel like someone is watching you. Perhaps their up ahead, or behind you, or maybe you're just going crazy.",
                    ),
                    None,
                ),
            ),
        ),
    );
    let mut exits: Vec<Exit> = Vec::new();
    exits.push(crate::room::make_exit(Direction::N, make_creek()));
    let r = Room::new(
        String::from_str("Path"),
        String::from_str(
            "As you walk up the path the trees around seem to get thicker, taller and the area darker with shade. The path continues to go north.",
        ),
        actions,
        exits,
        GoBack::new(true, None),
        None,
        None,
    );
    proof {
        lemma_exits_view_index(r.exits@, 0);
        assert(room_view(r).actions[0] == crate::room::action_entry_view(r.actions@[0]));
        assert(room_view(r).actions.drop_first() =~= Seq::<(
            crate::actions::Action,
            Option<crate::actions::OnActionModel>,
        )>::empty());
        assert(find_action(room_view(r).actions.drop_first(), Action::Look) is None);
        assert forall|i: int| 0 <= i < room_view(r).exits.len() implies wf_exit(
            #[trigger] room_view(r).exits[i],
        ) by {
            lemma_exits_view_index(r.exits@, i);
        }
    }
    r
}

/// The creek where the Poet waits: no way further, no way back, and a short
/// conversation two choices deep.
pub fn make_creek() -> (r: Room)
    ensures
        wf_room(room_view(r)),
        room_view(r).name == "River"@,
        room_view(r).exits.len() == 1,
        room_view(r).exits[0].direction == Direction::NONE,
        room_view(r).exits[0].room is None,
        !room_view(r).go_back.can_go_back,
        room_view(r).go_back.reason == Some(
            "There is something preventing you from going back. Is there something to do here?"@,
        ),
        (find_action(room_view(r).actions, Action::Talk) matches Some(oa) && oa.dc_check
            is None),
        room_view(r).conversation is Some,
        ({
            let conv = room_view(r).conversation->0;
            &&& conv.line == r#"The old man looks at you and asks: "Are you ok? Are you lost?""#@
            &&& conv.choices is Some
            &&& conv.choices->0.len() == 1
            &&& conv.choices->0[0].choice == "Who are you?"@
            &&& conv.choices->0[0].next.choices is Some
            &&& conv.choices->0[0].next.choices->0.len() == 1
            &&& conv.choices->0[0].next.choices->0[0].choice == "Not from here ..."@
            &&& conv.choices->0[0].next.choices->0[0].next.choices is None
        }),
{
    let mut actions: Vec<(Action, Option<OnAction>)> = Vec::new();
    actions.push(
        (Action::Talk, Some(OnAction::new(String::from_str("You enter the conversation."), None))),
    );
    let mut exits: Vec<Exit> = Vec::new();
    exits.push(Exit { direction: Direction::NONE, room: None });
    let conversation = Converse::new(
        String::from_str(r#"The old man looks at you and asks: "Are you ok? Are you lost?""#),
        Some(make_answer(make_nested_answer())),
    );
    let r = Room::new(
        String::from_str("River"),
        String::from_str(
            r#"Continuing to follow the path, you come across a creek. The water is softly and quietly moving along its course. A prescence causes you to shudder and turn around. You see an old man standing behind you wearing a fedora red robes leaning on a staff. He looks at you for a moment before saying: "Hello there!""#,
        ),
        actions,
        exits,
        GoBack::new(
            false,
            Some(
                String::from_str(
                    "There is something preventing you from going back. Is there something to do here?",
                ),
            ),
        ),
        None,
        Some(conversation),
    );
    proof {
        lemma_exits_view_index(r.exits@, 0);
        assert(room_view(r).actions[0] == crate::room::action_entry_view(r.actions@[0]));
        assert(room_view(r).actions.drop_first() =~= Seq::<(
            crate::actions::Action,
            Option<crate::actions::OnActionModel>,
        )>::empty());
        assert(find_action(room_view(r).actions.drop_first(), Action::Look) is None);
        assert forall|i: int| 0 <= i < room_view(r).exits.len() implies wf_exit(
            #[trigger] room_view(r).exits[i],
        ) by {
            lemma_exits_view_index(r.exits@, i);
        }
    }
    r
}

/// The first round of answers: asking the Poet who he is.
pub fn make_answer(nested_answer: Vec<Choices>) -> (r: Vec<Choices>)
    ensures
        r@.len() == 1,
        choices_view(r@).len() == 1,
        choices_view(r@)[0].choice == "Who are you?"@,
        choices_view(r@)[0].next.line
            == "Who am I? I am the Poet. Who are you child? Dont speak your name, it sits on my toungue. Where are you from?"@,
        choices_view(r@)[0].next.choices == Some(choices_view(nested_answer@)),
{
    let mut answer: Vec<Choices> = Vec::new();
    answer.push(
        Choices::new(
            String::from_str("Who are you?"),
            Converse::new(
                String::from_str(
                    "Who am I? I am the Poet. Who are you child? Dont speak your name, it sits on my toungue. Where are you from?",
                ),
                Some(nested_answer),
            ),
        ),
    );
    proof {
        lemma_choices_view_index(answer@, 0);
    }
    answer
}

/// The second round: telling the Poet one is not from here.
pub fn make_nested_answer() -> (r: Vec<Choices>)
    ensures
        r@.len() == 1,
        choices_view(r@).len() == 1,
        choices_view(r@)[0].choice == "Not from here ..."@,
        choices_view(r@)[0].next.line
            == "I can see that. We should get you inside before it rains. Follow me. Its a short distance to my house. Come along your safe."@,
        choices_view(r@)[0].next.choices is None,
{
    let mut second_answer: Vec<Choices> = Vec::new();
    second_answer.push(
        Choices::new(
            String::from_str("Not from here ..."),
            Converse::new(
                String::from_str(
                    "I can see that. We should get you inside before it rains. Follow me. Its a short distance to my house. Come along your safe.",
                ),
                None,
            ),
        ),
    );
    proof {
        lemma_choices_view_index(second_answer@, 0);
    }
    second_answer
}

} // verus!
