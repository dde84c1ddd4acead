use adventure_engine::actions::{Action, OnAction};
use adventure_engine::adventures::{
    get_adventures, make_adventure_list, make_creek, make_starting_room, start_adventure,
};
use adventure_engine::callbacks::{menu, AdventureId, SimpleCallback};
use adventure_engine::conversation::{conversation_menu, Choices, Converse};
use adventure_engine::person::{menu_choices, Person};
use adventure_engine::room::{
    make_exit, outcome_for_roll, ActionOutcome, Direction, Exit, GoBack, Room,
};
use adventure_engine::world::World;

fn empty_room(name: &str) -> Room {
    Room::new(
        String::from(name),
        format!("the {} room", name),
        Vec::new(),
        Vec::new(),
        GoBack::new(true, None),
        None,
        None,
    )
}

#[test]
fn room_accessors_hand_back_the_fields() {
    let room = empty_room("Cave");
    assert_eq!(room.name(), "Cave");
    assert_eq!(room.describe(), "the Cave room");
}

#[test]
fn make_exit_owns_its_room() {
    let exit = make_exit(Direction::E, empty_room("Cave"));
    assert!(matches!(exit.direction, Direction::E));
    assert_eq!(exit.room.as_ref().unwrap().name, "Cave");
}

#[test]
fn exit_finds_the_first_matching_direction() {
    let room = Room::new(
        String::from("Hall"),
        String::from("a hall"),
        Vec::new(),
        vec![
            make_exit(Direction::N, empty_room("North Cave")),
            make_exit(Direction::E, empty_room("East Cave")),
        ],
        GoBack::new(true, None),
        None,
        None,
    );
    assert_eq!(room.exit(Direction::E).unwrap().name, "East Cave");
    assert_eq!(room.exit(Direction::N).unwrap().name, "North Cave");
    assert!(room.exit(Direction::S).is_none());
    assert!(room.exit(Direction::W).is_none());
}

#[test]
fn do_action_without_an_entry_does_nothing() {
    let room = empty_room("Cave");
    assert!(matches!(room.do_action(Action::Look, 0), ActionOutcome::NothingHere));
}

#[test]
fn do_action_without_a_dc_shows_the_text() {
    let room = Room::new(
        String::from("Cave"),
        String::from("a cave"),
        vec![(Action::Look, Some(OnAction::new(String::from("glitter"), None)))],
        Vec::new(),
        GoBack::new(true, None),
        None,
        None,
    );
    match room.do_action(Action::Look, 0) {
        ActionOutcome::Text(t) => assert_eq!(t, "glitter"),
        other => panic!("expected the scripted text, got {:?}", other),
    }
}

#[test]
fn do_action_skips_entries_that_carry_nothing() {
    let room = Room::new(
        String::from("Cave"),
        String::from("a cave"),
        vec![(Action::Look, None)],
        Vec::new(),
        GoBack::new(true, None),
        None,
        None,
    );
    assert!(matches!(room.do_action(Action::Look, 0), ActionOutcome::NothingHere));
}

#[test]
fn dc_gated_action_always_succeeds_under_a_low_threshold() {
    let room = Room::new(
        String::from("Cave"),
        String::from("a cave"),
        vec![(Action::Explore, Some(OnAction::new(String::from("a tunnel"), Some(-100))))],
        Vec::new(),
        GoBack::new(true, None),
        None,
        None,
    );
    match room.do_action(Action::Explore, 2) {
        ActionOutcome::Success { roll, text } => {
            assert!((3..=21).contains(&roll));
            assert_eq!(text, "a tunnel");
        },
        other => panic!("expected success, got {:?}", other),
    }
}

#[test]
fn dc_gated_action_always_fails_over_a_high_threshold() {
    let room = Room::new(
        String::from("Cave"),
        String::from("a cave"),
        vec![(Action::Explore, Some(OnAction::new(String::from("a tunnel"), Some(100))))],
        Vec::new(),
        GoBack::new(true, None),
        None,
        None,
    );
    match room.do_action(Action::Explore, -2) {
        ActionOutcome::Failure { roll } => assert!((-1..=17).contains(&roll)),
        other => panic!("expected failure with the text withheld, got {:?}", other),
    }
}

#[test]
fn outcome_for_roll_decides_by_roll_plus_bonus() {
    let text = String::from("scripted");
    match outcome_for_roll(10, 2, &text, 11) {
        ActionOutcome::Success { roll, text: t } => {
            assert_eq!(roll, 12);
            assert_eq!(t, "scripted");
        },
        other => panic!("expected success, got {:?}", other),
    }
    match outcome_for_roll(10, 2, &text, 12) {
        ActionOutcome::Failure { roll } => assert_eq!(roll, 12),
        other => panic!("expected failure on an exact tie, got {:?}", other),
    }
    match outcome_for_roll(1, -4, &text, 0) {
        ActionOutcome::Failure { roll } => assert_eq!(roll, -3),
        other => panic!("expected failure, got {:?}", other),
    }
}

#[test]
fn world_keeps_its_base_room() {
    let world = World::new(empty_room("Base"));
    assert_eq!(world.get_base_room().name, "Base");
    assert!(world.current_room.is_none());
    assert!(world.previous_room.is_none());
    let world = world.set_current_room(empty_room("Elsewhere"));
    assert_eq!(world.current_room.as_ref().unwrap().name, "Elsewhere");
    assert_eq!(world.room.name, "Base");
}

#[test]
fn conversation_menu_lists_the_labels_in_order() {
    let choices = vec![
        Choices::new(String::from("first"), Converse::new(String::from("a"), None)),
        Choices::new(String::from("second"), Converse::new(String::from("b"), None)),
    ];
    assert_eq!(conversation_menu(&choices), vec!["first", "second"]);
}

#[test]
fn menu_choices_lists_the_names_in_order() {
    let people = vec![
        Person::new(String::from("Ann"), None, Converse::new(String::from("hi"), None)),
        Person::new(String::from("Bob"), None, Converse::new(String::from("yo"), None)),
    ];
    assert_eq!(menu_choices(&people), vec!["Ann", "Bob"]);
}

#[test]
fn adventure_list_numbers_from_one() {
    let list = vec![
        SimpleCallback { callback: AdventureId::DarkHarvest },
        SimpleCallback { callback: AdventureId::DarkHarvest },
    ];
    let numbered = make_adventure_list(list);
    assert_eq!(numbered.len(), 2);
    assert_eq!(numbered[0].0, 1);
    assert_eq!(numbered[1].0, 2);
}

#[test]
fn start_adventure_matches_the_entered_number() {
    assert!(matches!(
        start_adventure(String::from("1"), get_adventures()),
        AdventureId::DarkHarvest
    ));
    assert!(matches!(
        start_adventure(String::from("1\n"), get_adventures()),
        AdventureId::DarkHarvest
    ));
}

#[test]
fn menu_processes_its_callback() {
    let cb = SimpleCallback { callback: AdventureId::DarkHarvest };
    assert!(matches!(cb.process(), AdventureId::DarkHarvest));
    assert!(matches!(
        menu(SimpleCallback { callback: AdventureId::DarkHarvest }),
        AdventureId::DarkHarvest
    ));
}

#[test]
fn authored_rooms_have_their_shape() {
    let clearing = make_starting_room();
    assert_eq!(clearing.name, "Grassy Clearing");
    assert_eq!(clearing.exits.len(), 1);
    assert!(matches!(clearing.exits[0].direction, Direction::N));
    assert_eq!(clearing.exits[0].room.as_ref().unwrap().name, "Path");
    assert!(clearing.go_back.can_go_back);

    let creek = make_creek();
    assert_eq!(creek.name, "River");
    assert!(!creek.go_back.can_go_back);
    assert!(creek.go_back.reason.is_some());
    let conv = creek.conversation.as_ref().unwrap();
    let choices = conv.choices.as_ref().unwrap();
    assert_eq!(choices.len(), 1);
    assert_eq!(choices[0].choice, "Who are you?");
    let nested = choices[0].next.choices.as_ref().unwrap();
    assert_eq!(nested.len(), 1);
    assert_eq!(nested[0].choice, "Not from here ...");
    assert!(nested[0].next.choices.is_none());
}

#[test]
fn exits_may_stand_without_a_room_only_as_placeholders() {
    let creek = make_creek();
    let placeholder: &Exit = &creek.exits[0];
    assert!(matches!(placeholder.direction, Direction::NONE));
    assert!(placeholder.room.is_none());
}
