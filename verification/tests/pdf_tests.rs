use card_game::pdf::join_types;
use card_game::pdf::{
    card_slots, limited_line_budget, page_count, page_grid, process_command_name, process_commands,
    property_text, split_keywords, split_on_lines, try_process_commands, Alignment, CardSlot,
    TextModifier,
};

#[test]
fn style_codes() {
    assert_eq!(TextModifier::none.into(), "");
    assert_eq!(TextModifier::bold.into(), "B");
    assert_eq!(TextModifier::italic.into(), "I");
    assert_eq!(TextModifier::bold_italic.into(), "BI");
    assert_eq!(Alignment::left.into(), "L");
    assert_eq!(Alignment::center.into(), "C");
    assert_eq!(Alignment::right.into(), "R");
}

#[test]
fn command_names_are_capitalized_words() {
    assert_eq!(process_command_name("choose_your_card"), "Choose Your Card");
    assert_eq!(process_command_name("boost"), "Boost");
    assert_eq!(process_command_name("ärger_x"), "Ärger X");
}

#[test]
fn commands_with_parameters() {
    let mut s = "Deal 2 damage ¤choose_your_card(1) now".to_string();
    process_commands(&mut s);
    assert_eq!(s, "Deal 2 damage **Choose Your Card 1** now");
}

#[test]
fn commands_without_parameters() {
    let mut s = "¤quick strike and ¤be_brave".to_string();
    process_commands(&mut s);
    assert_eq!(s, "**Quick** strike and **Be Brave**");
}

#[test]
fn nested_commands_are_expanded_too() {
    assert_eq!(try_process_commands("¤a(¤b)"), Some("**A ¤b**".replace("¤b**", "**B****")));
}

#[test]
fn malformed_commands_are_refused() {
    assert_eq!(try_process_commands("¤a(b"), None);
    assert_eq!(try_process_commands("¤(x)"), None);
    assert_eq!(try_process_commands("¤a)b(c"), None);
    assert_eq!(try_process_commands("x ¤ y"), None);
    assert_eq!(try_process_commands("plain"), Some("plain".to_string()));
}

#[test]
fn keywords_are_split_off() {
    let mut s = "**Quick** **Flip** Deal 2".to_string();
    let mut k = vec!["old".to_string()];
    split_keywords(&mut s, &mut k);
    assert_eq!(k, vec!["old".to_string(), "**Quick**".to_string(), "**Flip**".to_string()]);
    assert_eq!(s, "Deal 2");
}

#[test]
fn text_without_keywords_is_kept() {
    let mut s = "Deal **2**".to_string();
    let mut k = Vec::new();
    split_keywords(&mut s, &mut k);
    assert!(k.is_empty());
    assert_eq!(s, "Deal **2**");
}

#[test]
fn property_text_expands_then_splits() {
    let (k, e) = property_text("¤quick ¤flip Deal 2");
    assert_eq!(k, vec!["**Quick**".to_string(), "**Flip**".to_string()]);
    assert_eq!(e, "Deal 2");
}

#[test]
fn split_on_lines_at_last_space() {
    let fits = vec![true, true, true, true, false, false, false, false];
    assert_eq!(split_on_lines("ab cd ef", &fits), ("ab".to_string(), "cd ef".to_string()));
}

#[test]
fn split_on_lines_whole_text_fits() {
    let fits = vec![true; 8];
    assert_eq!(split_on_lines("ab cd ef", &fits), ("ab cd ef".to_string(), "".to_string()));
}

#[test]
fn split_on_lines_nothing_fits() {
    let fits = vec![false; 8];
    assert_eq!(split_on_lines("ab cd ef", &fits), ("ab cd ef".to_string(), "".to_string()));
    assert_eq!(split_on_lines("", &vec![]), ("".to_string(), "".to_string()));
}

#[test]
fn split_on_lines_without_space_keeps_text() {
    let fits = vec![true, true, false, false];
    assert_eq!(split_on_lines("abcd", &fits), ("abcd".to_string(), "".to_string()));
}

#[test]
fn line_budget_beside_symbol() {
    assert_eq!(limited_line_budget(0), 1);
    assert_eq!(limited_line_budget(1), 0);
    assert_eq!(limited_line_budget(7), 0);
    assert_eq!(limited_line_budget(0x7fff_ffff), 0);
}

#[test]
fn line_budget_reads_count_as_signed_32_bit() {
    assert_eq!(limited_line_budget(0xffff_ffff), 2);
    assert_eq!(limited_line_budget(0xffff_fffe), 3);
    assert_eq!(limited_line_budget(0x8000_0002), 0x7fff_ffff);
}

#[test]
fn pages_and_grids() {
    assert_eq!(page_count(0), 0);
    assert_eq!(page_count(9), 1);
    assert_eq!(page_count(10), 2);
    assert_eq!(page_grid(10, 0), (3, 3));
    assert_eq!(page_grid(10, 1), (1, 1));
    assert_eq!(page_grid(5, 0), (3, 2));
}

#[test]
fn slots_follow_pages_rows_and_columns() {
    let s = card_slots(11);
    assert_eq!(s.len(), 11);
    assert_eq!(s[0], CardSlot { index: 0, page: 0, row: 0, column: 0 });
    assert_eq!(s[5], CardSlot { index: 5, page: 0, row: 1, column: 2 });
    assert_eq!(s[10], CardSlot { index: 10, page: 1, row: 0, column: 1 });
}

#[test]
fn types_join_with_commas() {
    assert_eq!(join_types(&vec![]), "");
    assert_eq!(join_types(&vec!["Beast".to_string()]), "Beast");
    assert_eq!(
        join_types(&vec!["Beast".to_string(), "".to_string(), "Flying".to_string()]),
        "Beast, , Flying"
    );
}
