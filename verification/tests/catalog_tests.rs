use card_game::catalog::{cards_to_print, duplicate_names, merge_cards};
use card_game::Card;

fn card(name: &str, commander: bool, flavor: &str) -> Card {
    let mut c = Card::with_name(name.to_string());
    c.commander = commander;
    c.flavor_text = flavor.to_string();
    c
}

fn names(cards: &[Card]) -> Vec<String> {
    cards.iter().map(|c| c.name.clone()).collect()
}

#[test]
fn merge_replaces_same_card_and_appends_others() {
    let mut cards = vec![card("Ant", false, "old"), card("Bee", false, "old"), card("Ant", true, "old")];
    let new = vec![card("Bee", false, "new"), card("Cat", false, "new"), card("Ant", true, "new")];
    merge_cards(&mut cards, new);
    assert_eq!(names(&cards), vec!["Ant", "Bee", "Ant", "Cat"]);
    let flavors: Vec<String> = cards.iter().map(|c| c.flavor_text.clone()).collect();
    assert_eq!(flavors, vec!["old", "new", "new", "new"]);
    assert!(!cards[0].commander);
    assert!(cards[2].commander);
}

#[test]
fn merge_of_repeated_new_cards_keeps_the_last() {
    let mut cards = Vec::new();
    merge_cards(&mut cards, vec![card("Ant", false, "one"), card("Ant", false, "two")]);
    assert_eq!(cards.len(), 1);
    assert_eq!(cards[0].flavor_text, "two");
}

#[test]
fn merge_replaces_only_the_first_match() {
    let mut cards = vec![card("Ant", false, "a"), card("Ant", false, "b")];
    merge_cards(&mut cards, vec![card("Ant", false, "c")]);
    let flavors: Vec<String> = cards.iter().map(|c| c.flavor_text.clone()).collect();
    assert_eq!(flavors, vec!["c", "b"]);
}

#[test]
fn print_list_selects_by_trimmed_name() {
    let cards = vec![card(" Ant ", false, ""), card("Bee", false, ""), card("Cat", true, "")];
    let chosen = cards_to_print(cards, "Cat\r\nAnt\n");
    assert_eq!(names(&chosen), vec![" Ant ", "Cat"]);
}

#[test]
fn print_list_lines_are_not_trimmed() {
    let cards = vec![card("Ant", false, ""), card("Bee", false, "")];
    let chosen = cards_to_print(cards, " Ant\nBee");
    assert_eq!(names(&chosen), vec!["Bee"]);
}

#[test]
fn empty_print_list_selects_nothing() {
    let cards = vec![card("Ant", false, "")];
    assert!(cards_to_print(cards, "").is_empty());
}

#[test]
fn duplicates_are_reported_once_per_repeat() {
    let cards = vec![
        card("Ant", false, ""),
        card("Bee", false, ""),
        card("Ant", true, ""),
        card("Ant", false, ""),
        card("Bee", false, ""),
    ];
    assert_eq!(duplicate_names(&cards), vec!["Ant", "Ant", "Bee"]);
}

#[test]
fn no_duplicates_among_distinct_names() {
    let cards = vec![card("Ant", false, ""), card("ant", false, "")];
    assert!(duplicate_names(&cards).is_empty());
}
