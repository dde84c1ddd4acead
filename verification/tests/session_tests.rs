use adventure_engine::actions::Action;
use adventure_engine::adventures::make_starting_room;
use adventure_engine::charactersheet::{build_character, Character, Stats};
use adventure_engine::dialog::DialogReply;
use adventure_engine::game::{Game, Reply};
use adventure_engine::room::ActionOutcome;
use adventure_engine::stat_bonus::create_all_stat_bonuses;
use adventure_engine::world::World;

fn test_character() -> Character {
    let mut character = build_character(String::from("Tester"));
    character.stats = Some(Stats::new(10, 10, 10, 10, 10));
    character
}

fn fresh_game() -> Game {
    let mut game = Game {
        active: true,
        game_character: test_character(),
        stat_bonuses: create_all_stat_bonuses(),
        current_room: None,
        previous_room: None,
    };
    let world = World::new(make_starting_room());
    game.set_base_room(&world);
    game
}

fn current_name(game: &Game) -> String {
    game.current_room.as_ref().unwrap().name.clone()
}

#[test]
fn go_north_enters_the_path() {
    let mut game = fresh_game();
    match game.parse_input(String::from("go north")) {
        Reply::Entered(name, description) => {
            assert_eq!(name, "Path");
            assert!(description.starts_with("As you walk up the path"));
        },
        other => panic!("expected to enter the path, got {:?}", other),
    }
    assert_eq!(current_name(&game), "Path");
}

#[test]
fn go_south_from_the_path_is_refused_and_changes_nothing() {
    let mut game = fresh_game();
    game.parse_input(String::from("go north"));
    assert!(matches!(game.parse_input(String::from("go south")), Reply::CannotGo));
    assert_eq!(current_name(&game), "Path");
    assert_eq!(game.previous_room.as_ref().unwrap().name, "Grassy Clearing");
}

#[test]
fn back_swaps_the_two_room_slots() {
    let mut game = fresh_game();
    game.parse_input(String::from("go north"));
    match game.parse_input(String::from("go back")) {
        Reply::Entered(name, _) => assert_eq!(name, "Grassy Clearing"),
        other => panic!("expected to re-enter the clearing, got {:?}", other),
    }
    assert_eq!(current_name(&game), "Grassy Clearing");
    assert_eq!(game.previous_room.as_ref().unwrap().name, "Path");
}

#[test]
fn back_twice_only_swaps_again() {
    let mut game = fresh_game();
    game.parse_input(String::from("go north"));
    game.parse_input(String::from("go back"));
    match game.parse_input(String::from("go back")) {
        Reply::Entered(name, _) => assert_eq!(name, "Path"),
        other => panic!("expected the single-slot swap, got {:?}", other),
    }
    assert_eq!(current_name(&game), "Path");
    assert_eq!(game.previous_room.as_ref().unwrap().name, "Grassy Clearing");
}

#[test]
fn back_without_a_previous_room_is_refused() {
    let mut game = fresh_game();
    assert!(matches!(game.parse_input(String::from("go back")), Reply::NoWayBack));
    assert_eq!(current_name(&game), "Grassy Clearing");
}

#[test]
fn back_is_refused_where_the_room_forbids_it() {
    let mut game = fresh_game();
    game.parse_input(String::from("go north"));
    game.parse_input(String::from("go north"));
    assert_eq!(current_name(&game), "River");
    match game.parse_input(String::from("go back")) {
        Reply::BackRefused(reason) => {
            assert_eq!(
                reason.unwrap(),
                "There is something preventing you from going back. Is there something to do here?"
            );
        },
        other => panic!("expected the room's refusal, got {:?}", other),
    }
    assert_eq!(current_name(&game), "River");
    assert_eq!(game.previous_room.as_ref().unwrap().name, "Path");
}

#[test]
fn commands_are_case_insensitive() {
    let mut game = fresh_game();
    match game.parse_input(String::from("GO North")) {
        Reply::Entered(name, _) => assert_eq!(name, "Path"),
        other => panic!("expected to enter the path, got {:?}", other),
    }
    assert!(matches!(game.parse_input(String::from("HELP")), Reply::Help));
}

#[test]
fn walk_and_move_also_move() {
    let mut game = fresh_game();
    assert!(matches!(game.parse_input(String::from("walk n")), Reply::Entered(_, _)));
    let mut game = fresh_game();
    assert!(matches!(game.parse_input(String::from("move n")), Reply::Entered(_, _)));
}

#[test]
fn a_word_that_names_no_direction_is_refused() {
    let mut game = fresh_game();
    assert!(matches!(game.parse_input(String::from("go sideways")), Reply::BadDirection));
    assert!(matches!(game.parse_input(String::from("go")), Reply::BadDirection));
    assert_eq!(current_name(&game), "Grassy Clearing");
}

#[test]
fn help_quit_and_unknown_commands() {
    let mut game = fresh_game();
    assert!(matches!(game.parse_input(String::from("help")), Reply::Help));
    assert!(game.is_active());
    match game.parse_input(String::from("dance")) {
        Reply::Unknown(word) => assert_eq!(word, "dance"),
        other => panic!("expected the echo, got {:?}", other),
    }
    assert!(matches!(game.parse_input(String::from("   ")), Reply::Invalid));
    assert!(matches!(game.parse_input(String::from("quit")), Reply::Farewell));
    assert!(!game.is_active());
}

#[test]
fn q_and_exit_also_quit_the_session() {
    let mut game = fresh_game();
    assert!(matches!(game.parse_input(String::from("q")), Reply::Farewell));
    assert!(!game.is_active());
    let mut game = fresh_game();
    assert!(matches!(game.parse_input(String::from("exit")), Reply::Farewell));
    assert!(!game.is_active());
}

#[test]
fn look_finds_nothing_in_the_clearing() {
    let mut game = fresh_game();
    match game.parse_input(String::from("look")) {
        Reply::Resolved(ActionOutcome::NothingHere) => {},
        other => panic!("expected nothing to look at, got {:?}", other),
    }
}

#[test]
fn explore_shows_the_scripted_text() {
    let mut game = fresh_game();
    match game.parse_input(String::from("explore")) {
        Reply::Resolved(ActionOutcome::Text(text)) => {
            assert!(text.starts_with("You look around and see nothing of interest."));
        },
        other => panic!("expected the scripted text, got {:?}", other),
    }
}

#[test]
fn talking_to_nobody_is_refused() {
    let mut game = fresh_game();
    assert!(matches!(game.parse_input(String::from("talk")), Reply::TalkRefused));
}

#[test]
fn talking_at_the_creek_opens_the_conversation() {
    let mut game = fresh_game();
    game.parse_input(String::from("go north"));
    game.parse_input(String::from("go north"));
    match game.parse_input(String::from("talk")) {
        Reply::Conversation(line) => {
            assert_eq!(line, r#"The old man looks at you and asks: "Are you ok? Are you lost?""#);
        },
        other => panic!("expected the conversation to open, got {:?}", other),
    }
    let mut engine = game.start_conversation().unwrap();
    assert_eq!(engine.menu(), vec!["Who are you?"]);
    assert!(matches!(engine.handle_line("1"), DialogReply::Advanced));
    assert!(engine.line().starts_with("Who am I? I am the Poet."));
}

#[test]
fn quitting_a_conversation_returns_to_the_session() {
    let mut game = fresh_game();
    game.parse_input(String::from("go north"));
    game.parse_input(String::from("go north"));
    let mut engine = game.start_conversation().unwrap();
    assert!(matches!(engine.handle_line("quit"), DialogReply::Quit));
    assert!(engine.done);
    assert!(game.is_active());
    assert!(matches!(game.parse_input(String::from("help")), Reply::Help));
}

#[test]
fn process_action_with_no_action_kind_is_clueless() {
    let mut game = fresh_game();
    assert!(matches!(game.process_action(Action::NONE), Reply::NoIdeaHow));
}

#[test]
fn set_active_flips_the_flag() {
    let mut game = fresh_game();
    assert!(game.is_active());
    game.set_active(false);
    assert!(!game.is_active());
    game.set_active(true);
    assert!(game.is_active());
}
