use adventure_engine::adventures::make_creek;
use adventure_engine::conversation::{Choices, Converse};
use adventure_engine::dialog::{DialogEngine, DialogReply};

fn two_choice_conversation() -> Converse {
    Converse::new(
        String::from("Pick a door."),
        Some(vec![
            Choices::new(
                String::from("the left one"),
                Converse::new(String::from("A library."), None),
            ),
            Choices::new(
                String::from("the right one"),
                Converse::new(String::from("A kitchen."), None),
            ),
        ]),
    )
}

#[test]
fn engine_opens_at_the_root() {
    let conv = two_choice_conversation();
    let engine = DialogEngine::new(&conv);
    assert!(!engine.done);
    assert_eq!(engine.line(), "Pick a door.");
    assert_eq!(engine.menu(), vec!["the left one", "the right one"]);
    assert_eq!(engine.num_choices(), 2);
}

#[test]
fn engine_over_a_leaf_is_done_at_once() {
    let conv = Converse::new(String::from("Nothing to say."), None);
    let engine = DialogEngine::new(&conv);
    assert!(engine.done);
    assert_eq!(engine.line(), "Nothing to say.");
    assert!(engine.menu().is_empty());
}

#[test]
fn selecting_one_moves_to_the_first_choice() {
    let conv = two_choice_conversation();
    let mut engine = DialogEngine::new(&conv);
    let reply = engine.handle_line("1");
    assert!(matches!(reply, DialogReply::Advanced));
    assert_eq!(engine.line(), "A library.");
    assert!(engine.done);
}

#[test]
fn selecting_two_moves_to_the_second_choice() {
    let conv = two_choice_conversation();
    let mut engine = DialogEngine::new(&conv);
    assert!(matches!(engine.handle_line("2"), DialogReply::Advanced));
    assert_eq!(engine.line(), "A kitchen.");
}

#[test]
fn quitting_abandons_the_conversation_where_it_stands() {
    let conv = two_choice_conversation();
    let mut engine = DialogEngine::new(&conv);
    let reply = engine.handle_line("quit");
    assert!(matches!(reply, DialogReply::Quit));
    assert!(engine.done);
    assert!(engine.path.is_empty());
    assert_eq!(engine.line(), "Pick a door.");
}

#[test]
fn q_and_exit_also_quit() {
    let conv = two_choice_conversation();
    let mut engine = DialogEngine::new(&conv);
    assert!(matches!(engine.handle_line("q"), DialogReply::Quit));
    let mut engine = DialogEngine::new(&conv);
    assert!(matches!(engine.handle_line("exit"), DialogReply::Quit));
}

#[test]
fn out_of_range_numbers_leave_the_node_unchanged() {
    let conv = two_choice_conversation();
    let mut engine = DialogEngine::new(&conv);
    assert!(matches!(engine.handle_line("0"), DialogReply::NotAValidChoice));
    assert!(matches!(engine.handle_line("3"), DialogReply::NotAValidChoice));
    assert!(matches!(engine.handle_line("-1"), DialogReply::NotAValidChoice));
    assert!(!engine.done);
    assert!(engine.path.is_empty());
    assert_eq!(engine.line(), "Pick a door.");
}

#[test]
fn unparsable_input_re_prompts_at_the_same_node() {
    let conv = two_choice_conversation();
    let mut engine = DialogEngine::new(&conv);
    assert!(matches!(engine.handle_line("left"), DialogReply::Invalid));
    assert!(matches!(engine.handle_line(""), DialogReply::Invalid));
    assert!(matches!(engine.handle_line("   "), DialogReply::Invalid));
    assert!(!engine.done);
    assert_eq!(engine.line(), "Pick a door.");
}

#[test]
fn first_choices_reach_the_leaf_in_depth_steps() {
    let creek = make_creek();
    let conv = creek.conversation.unwrap();
    let mut engine = DialogEngine::new(&conv);
    engine.walk_first_choices();
    assert!(engine.done);
    assert_eq!(engine.path, vec![0, 0]);
    assert_eq!(
        engine.line(),
        "I can see that. We should get you inside before it rains. Follow me. Its a short distance to my house. Come along your safe."
    );
}

#[test]
fn selecting_first_repeatedly_matches_the_walk() {
    let creek = make_creek();
    let conv = creek.conversation.unwrap();
    let mut engine = DialogEngine::new(&conv);
    let mut steps: usize = 0;
    while !engine.done {
        assert!(matches!(engine.handle_line("1"), DialogReply::Advanced));
        steps += 1;
    }
    assert_eq!(steps, 2);
}
