use card_game::serialize::{
    find_next_property_position, initialize_card, parse_txt_string, process_card,
    process_card_strings, serialize_all_cards, sort_attributes_by_name, split_string_by_cards,
    PropertyError,
};
use card_game::text::to_chars;
use card_game::{Attribute, Card};

fn chars(s: &str) -> Vec<char> {
    s.chars().collect()
}

#[test]
fn split_groups_blocks() {
    let r = split_string_by_cards("Knight\nOffense 2, Human A; Strike\n\nMage\nT; Wise\n\n");
    assert_eq!(
        r,
        vec![
            "Knight\nOffense 2, Human A; Strike ".to_string(),
            "Mage\nT; Wise ".to_string(),
            "".to_string()
        ]
    );
}

#[test]
fn split_joins_data_lines_with_spaces() {
    let r = split_string_by_cards("Knight\nOffense 2\nA; Strike");
    assert_eq!(r, vec!["Knight\nOffense 2 A; Strike ".to_string()]);
}

#[test]
fn split_of_empty_text_is_one_empty_string() {
    assert_eq!(split_string_by_cards(""), vec!["".to_string()]);
}

#[test]
fn split_strips_carriage_returns() {
    let r = split_string_by_cards("Knight\r\nHuman\r\n");
    assert_eq!(r, vec!["Knight\nHuman ".to_string()]);
}

#[test]
fn marker_is_character_before_semicolon() {
    let s = "Human A; Strike R; Parry";
    assert_eq!(find_next_property_position(s, 0), Some(('A', 6)));
    assert_eq!(find_next_property_position(s, 7), Some(('R', 16)));
    assert_eq!(find_next_property_position(s, 17), None);
}

#[test]
fn marker_positions_are_byte_offsets() {
    assert_eq!(find_next_property_position("Élan A; x", 0), Some(('A', 6)));
    assert_eq!(find_next_property_position("é; x", 0), Some(('é', 0)));
    assert_eq!(find_next_property_position("é; x", 1), None);
    assert_eq!(find_next_property_position("éA; x", 1), Some(('A', 2)));
    assert_eq!(find_next_property_position("A; x", 9), None);
}

#[test]
fn initialize_reads_attributes_and_types() {
    let mut card = Card::with_name("Knight".to_string());
    initialize_card(&mut card, &chars(" Offense 2 , Human, Knight Order,, Speed  fast "));
    assert_eq!(
        card.attributes,
        vec![
            Attribute { n: "Offense".to_string(), v: "2".to_string() },
            Attribute { n: "Speed".to_string(), v: "fast".to_string() }
        ]
    );
    assert_eq!(card.types, vec!["Human".to_string(), "Knight".to_string()]);
}

#[test]
fn process_card_files_segments_by_following_kind() {
    let mut card = Card::with_name("Knight".to_string());
    let r = process_card(&mut card, &chars("Offense 2, Human A; Strike hard R; Parry T; Brave"));
    assert_eq!(r, Ok(()));
    assert_eq!(card.attributes, vec![Attribute { n: "Offense".to_string(), v: "2".to_string() }]);
    assert_eq!(card.types, vec!["Human".to_string()]);
    assert!(card.abiilities.is_empty());
    assert_eq!(card.reactions, vec!["Strike hard".to_string()]);
    assert_eq!(card.traits, vec!["Parry".to_string(), "T; Brave".to_string()]);
}

#[test]
fn process_card_refuses_unknown_kind() {
    let mut card = Card::with_name("Knight".to_string());
    let r = process_card(&mut card, &chars("Human X; foo"));
    assert_eq!(r, Err(PropertyError::InvalidPropertyChar('X')));
    assert_eq!(card.types, vec!["Human".to_string()]);
}

#[test]
fn process_card_refuses_unknown_following_kind() {
    let mut card = Card::new();
    let r = process_card(&mut card, &chars("A; strike Q; x"));
    assert_eq!(r, Err(PropertyError::InvalidPropertyChar('Q')));
    assert!(card.abiilities.is_empty());
}

#[test]
fn process_card_skips_one_char_of_two_byte_marker() {
    let mut card = Card::new();
    let r = process_card(&mut card, &chars("é; x A; y"));
    assert_eq!(r, Ok(()));
    assert_eq!(card.abiilities, vec!["; x".to_string(), "A; y".to_string()]);
}

#[test]
fn card_strings_make_one_card_per_block() {
    let cards = process_card_strings(vec!["Knight\nOffense 2 A; Strike ".to_string(), "".to_string(), "Mage".to_string()]);
    assert_eq!(cards.len(), 2);
    assert_eq!(cards[0].name, "Knight");
    assert_eq!(cards[0].abiilities, vec!["A; Strike ".to_string()]);
    assert_eq!(cards[1].name, "Mage");
    assert!(cards[1].attributes.is_empty());
}

#[test]
fn parse_simple_card() {
    let cards = parse_txt_string("Knight\nOffense 2, Human\n".to_string());
    assert_eq!(cards.len(), 1);
    assert_eq!(cards[0].name, "Knight");
    assert_eq!(cards[0].attributes.len(), 1);
    assert_eq!(cards[0].attributes[0].n, "Offense");
    assert_eq!(cards[0].attributes[0].v, "2");
    assert_eq!(cards[0].types, vec!["Human".to_string()]);
}

#[test]
fn parse_two_cards() {
    let cards = parse_txt_string("Knight\nOffense 2\nA; Strike\n\nMage\nT; Wise".to_string());
    assert_eq!(cards.len(), 2);
    assert_eq!(cards[0].abiilities, vec!["A; Strike ".to_string()]);
    assert_eq!(cards[1].name, "Mage");
    assert_eq!(cards[1].traits, vec!["T; Wise ".to_string()]);
    assert!(!cards[1].commander);
}

#[test]
fn sort_is_by_name_and_stable() {
    let a = |n: &str, v: &str| Attribute { n: n.to_string(), v: v.to_string() };
    let sorted = sort_attributes_by_name(vec![a("b", "1"), a("a", "2"), a("b", "3"), a("ab", "4"), a("B", "5")]);
    assert_eq!(sorted, vec![a("B", "5"), a("a", "2"), a("ab", "4"), a("b", "1"), a("b", "3")]);
}

#[test]
fn sort_agrees_with_string_order() {
    let a = |n: &str| Attribute { n: n.to_string(), v: String::new() };
    let names = ["Zeta", "alpha", "Ärger", "Apfel", "", "a", "Äb"];
    let sorted = sort_attributes_by_name(names.iter().map(|n| a(n)).collect());
    let mut expected: Vec<String> = names.iter().map(|n| n.to_string()).collect();
    expected.sort();
    let got: Vec<String> = sorted.into_iter().map(|x| x.n).collect();
    assert_eq!(got, expected);
}

#[test]
fn serialize_sorts_attributes() {
    let cards = serialize_all_cards(&vec!["Knight\nPower 1, Defense 3, Offense 2\n".to_string()], true);
    let names: Vec<&str> = cards[0].attributes.iter().map(|a| a.n.as_str()).collect();
    assert_eq!(names, vec!["Defense", "Offense", "Power"]);
    assert!(cards[0].commander);
}

#[test]
fn serialize_reads_files_in_order() {
    let cards = serialize_all_cards(&vec!["A\n\nB".to_string(), "C".to_string()], false);
    let names: Vec<&str> = cards.iter().map(|c| c.name.as_str()).collect();
    assert_eq!(names, vec!["A", "B", "C"]);
    assert!(cards.iter().all(|c| !c.commander));
}

#[test]
fn new_card_is_empty() {
    let c = Card::new();
    assert_eq!(c.name, "");
    assert!(!c.commander && c.attributes.is_empty() && c.types.is_empty());
    assert_eq!(to_chars("ab"), vec!['a', 'b']);
}
