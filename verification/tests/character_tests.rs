use adventure_engine::charactersheet::{
    accept_stats, build_character, parse_commands, roll_stats, standard_classes, Class, Race,
    Stats,
};
use adventure_engine::setup::Game as SetupGame;

#[test]
fn stats_new_takes_the_rolled_order() {
    let stats = Stats::new(3, 4, 5, 6, 7);
    assert_eq!(stats.str, 3);
    assert_eq!(stats.int, 4);
    assert_eq!(stats.dex, 5);
    assert_eq!(stats.chr, 6);
    assert_eq!(stats.dur, 7);
}

#[test]
fn build_character_starts_with_just_a_name() {
    let character = build_character(String::from("Robin"));
    assert_eq!(character.name, "Robin");
    assert!(character.stats.is_none());
    assert!(character.class.is_none());
    assert!(character.race.is_none());
}

#[test]
fn race_and_class_constructors_keep_their_fields() {
    let race = Race::new(String::from("Elf"));
    assert_eq!(race.name, "Elf");
    let class = Class::new(String::from("Bard"), true, true, 5);
    assert_eq!(class.name, "Bard");
    assert!(class.can_cast);
    assert!(class.can_steal);
    assert_eq!(class.max_hp, 5);
}

#[test]
fn the_standard_classes_are_the_three_known_ones() {
    let classes = standard_classes();
    assert_eq!(classes.len(), 3);
    assert_eq!(classes[0].name, "Wizard");
    assert!(classes[0].can_cast);
    assert_eq!(classes[0].max_hp, 4);
    assert_eq!(classes[1].name, "Theif");
    assert!(classes[1].can_steal);
    assert_eq!(classes[1].max_hp, 6);
    assert_eq!(classes[2].name, "Fighter");
    assert!(!classes[2].can_cast);
    assert_eq!(classes[2].max_hp, 8);
}

#[test]
fn class_words_pick_their_class() {
    let classes = standard_classes();
    let picked = parse_commands(
        vec![String::from("wizard")],
        build_character(String::from("A")),
        &classes,
    );
    assert_eq!(picked.unwrap().class.unwrap().name, "Wizard");
    let picked = parse_commands(
        vec![String::from("fighter")],
        build_character(String::from("A")),
        &classes,
    );
    assert_eq!(picked.unwrap().class.unwrap().name, "Fighter");
    let picked = parse_commands(
        vec![String::from("theif")],
        build_character(String::from("A")),
        &classes,
    );
    assert_eq!(picked.unwrap().class.unwrap().name, "Theif");
}

#[test]
fn unknown_class_words_pick_nothing() {
    let classes = standard_classes();
    assert!(parse_commands(
        vec![String::from("mage")],
        build_character(String::from("A")),
        &classes
    )
    .is_none());
    assert!(parse_commands(Vec::new(), build_character(String::from("A")), &classes).is_none());
}

#[test]
fn accept_stats_reads_the_five_rolls_in_order() {
    let stats = accept_stats(&vec![3, 4, 5, 6, 7]);
    assert_eq!(stats.str, 3);
    assert_eq!(stats.int, 4);
    assert_eq!(stats.dex, 5);
    assert_eq!(stats.chr, 6);
    assert_eq!(stats.dur, 7);
}

#[test]
fn rolled_stats_are_five_dice_in_range() {
    for _ in 0..20 {
        let stats = roll_stats();
        assert_eq!(stats.len(), 5);
        for value in stats {
            assert!((3..=18).contains(&value));
        }
    }
}

#[test]
fn setup_game_carries_the_character() {
    let mut game = SetupGame { active: true, game_character: build_character(String::from("A")) };
    assert!(game.is_active());
    game.set_acive(false);
    assert!(!game.is_active());
    assert_eq!(game.get_character().name, "A");
    game.update_character(build_character(String::from("B")));
    assert_eq!(game.get_character().name, "B");
}
