use card_game::deserialize::get_attr_condition_string;
use card_game::generate_alpha::{get_gradient_alpha, lower_alpha_data, upper_alpha_data};
use card_game::serialize_0_2_0::{
    find_next_property_position, parse_action_text, ActionText, CostKind, PropertyType,
};
use card_game::to_pdf::{process_commands, try_process_commands, DeserializedProperty};


#[test]
fn gradient_values() {
    assert_eq!(get_gradient_alpha(0), 124);
    assert_eq!(get_gradient_alpha(5), 124);
    assert_eq!(get_gradient_alpha(6), 124);
    assert_eq!(get_gradient_alpha(7), 123);
    assert_eq!(get_gradient_alpha(129), 1);
    assert_eq!(get_gradient_alpha(130), 0);
    assert_eq!(get_gradient_alpha(500), 0);
}

#[test]
fn lower_alpha_image() {
    let d = lower_alpha_data(2);
    let w = 2360 * 4;
    assert_eq!(d.len(), w * 132);
    assert_eq!(&d[0..4], &[0, 0, 0, 1]);
    assert_eq!(d[129 * w + 3], 124);
    assert_eq!(d[131 * w + w - 1], 124);
    assert!(d.iter().enumerate().all(|(i, b)| i % 4 == 3 || *b == 0));
}

#[test]
fn upper_alpha_image() {
    let d = upper_alpha_data(2);
    let w = 2360 * 4;
    assert_eq!(d.len(), w * 132);
    assert_eq!(d[3], 124);
    assert_eq!(d[w + 3], 124);
    assert_eq!(d[2 * w + 3], 124);
    assert_eq!(d[131 * w + 3], 1);
}

#[test]
fn typed_markers() {
    assert_eq!(find_next_property_position("Flip T2.5; deal", 0), Some((PropertyType::triggered_, 5)));
    assert_eq!(find_next_property_position("A; x", 0), Some((PropertyType::action_, 0)));
    assert_eq!(find_next_property_position("TA; x", 0), None);
    assert_eq!(find_next_property_position("P12; x P3; y", 1), Some((PropertyType::passive_, 7)));
    assert_eq!(find_next_property_position("T.5; x", 0), None);
}

#[test]
fn typed_marker_positions_are_byte_offsets() {
    assert_eq!(find_next_property_position("Élan T2; x", 0), Some((PropertyType::triggered_, 6)));
    assert_eq!(find_next_property_position("éA; x", 1), Some((PropertyType::action_, 2)));
    assert_eq!(find_next_property_position("P1; x", 2), None);
}

#[test]
fn attribute_conditions() {
    assert_eq!(get_attr_condition_string("Human, !Undead"), "Human, non-Undead");
    assert_eq!(get_attr_condition_string(""), "");
    assert_eq!(get_attr_condition_string(" !Fire "), "non-Fire");
}

#[test]
fn fixed_rules_commands() {
    assert_eq!(process_commands("¤I_am ready"), "This card is ready");
    assert_eq!(process_commands("¤Boost ¤me"), "Boost this card");
    assert_eq!(process_commands(""), "");
}

#[test]
fn summon_commands() {
    assert_eq!(process_commands("¤summon(Wolf)) now"), "[b]Summon Wolf[/b] now");
    assert_eq!(try_process_commands("¤summon(Wolf)"), None);
    assert_eq!(try_process_commands("¤summon(Wolf"), None);
}

fn prop(a: usize, b: usize, c: usize, d: usize) -> DeserializedProperty {
    DeserializedProperty {
        name_limited: String::new(),
        name_non_limited: String::new(),
        efct_limited: String::new(),
        efct_non_limited: String::new(),
        attr_limited: String::new(),
        attr_non_limited: String::new(),
        name_limited_l: 9,
        name_non_limited_l: 9,
        efct_limited_l: a,
        efct_non_limited_l: b,
        attr_limited_l: c,
        attr_non_limited_l: d,
    }
}

#[test]
fn property_height_sum() {
    assert_eq!(DeserializedProperty::get_height_sum(&vec![], &vec![], &vec![]), 0);
    assert_eq!(DeserializedProperty::get_height_sum(&vec![prop(1, 2, 0, 0)], &vec![], &vec![prop(0, 1, 1, 0)]), 6);
}

#[test]
fn action_text_of_cost_actions() {
    assert_eq!(
        parse_action_text("A; SUM 3 mana"),
        Some(ActionText::Cost(CostKind::Summon, "SUM 3 mana".to_string()))
    );
    assert_eq!(
        parse_action_text("A;EQU 1 "),
        Some(ActionText::Cost(CostKind::Equip, "EQU 1".to_string()))
    );
    assert_eq!(parse_action_text("A; Strike"), None);
    assert_eq!(parse_action_text("A; EVO"), None);
    assert_eq!(parse_action_text("A; évo 2"), None);
}

#[test]
fn action_text_of_effect_actions() {
    assert_eq!(
        parse_action_text("A; Pay 2; Deal 3"),
        Some(ActionText::Effect("Pay 2. Deal 3".to_string(), None))
    );
    assert_eq!(
        parse_action_text("A; Hand Only ; Pay 2; Deal 3 "),
        Some(ActionText::Effect("Pay 2. Deal 3".to_string(), Some("Hand Only".to_string())))
    );
    assert_eq!(parse_action_text("A"), None);
}
