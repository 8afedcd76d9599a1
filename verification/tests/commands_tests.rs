use card_game::deserialize::{
    replace_fixed_bracket_commands, replace_zone_commands, try_expand_param_commands, ParamCommand,
};
use card_game::serialize_0_2_0::try_inject_phrase_commands;

fn expand(s: &str, ks: Vec<ParamCommand>) -> Option<String> {
    try_expand_param_commands(s, &ks)
}

#[test]
fn fixed_bracket_commands_become_words() {
    assert_eq!(
        replace_fixed_bracket_commands("¤(ho) ¤(I am) ¤(I) ¤(Boost) ¤(xp)"),
        "Hand Only This card is This card Boost XP"
    );
    assert_eq!(replace_fixed_bracket_commands("plain text"), "plain text");
}

#[test]
fn zone_commands_become_words() {
    assert_eq!(replace_zone_commands("¤(zone) and ¤(Zone)"), "zone and Zone");
}

#[test]
fn gives_command_names_first_attribute() {
    assert_eq!(
        expand("Give it ¤(p_gives_one( Flying , 2)). Done", vec![ParamCommand::GivesOne]),
        Some("Give it has the Flying attribute. Done".to_string())
    );
    assert_eq!(
        expand("They ¤(p_gives_many(Fast)).", vec![ParamCommand::GivesOne, ParamCommand::GivesMany]),
        Some("They have the Fast attribute.".to_string())
    );
}

#[test]
fn condition_commands_read_conditions() {
    assert_eq!(
        expand("¤(Cswa(!Flying, Fast)) attack", vec![ParamCommand::CardsWith]),
        Some("Non-Flying, Fast cards attack".to_string())
    );
    assert_eq!(
        expand("a ¤(cwa(Fast)) x", vec![ParamCommand::CardWithLower]),
        Some("a Fast card x".to_string())
    );
    assert_eq!(
        expand("¤(Cwa(Fast)) x", vec![ParamCommand::CardWith]),
        Some("Fast card x".to_string())
    );
    assert_eq!(
        expand("all ¤(cswa(!Big)) y", vec![ParamCommand::CardsWithLower]),
        Some("all non-Big cards y".to_string())
    );
}

#[test]
fn cost_commands_end_at_first_parenthesis() {
    assert_eq!(
        expand("¤(Pay(3 ¤(mana))) now", vec![ParamCommand::Pay]),
        Some("Pay 3 ¤(mana) now".to_string())
    );
    assert_eq!(
        expand("¤(Sum(2))", vec![ParamCommand::Summon]),
        Some("Move this card to an empty friendly field position of your choice, then pay 2.".to_string())
    );
    assert_eq!(
        expand("x ¤(Evo(1)) ¤(Equ(4))", vec![ParamCommand::Evolve, ParamCommand::Equip]),
        Some(
            "x Move this card to a friendly reserve of your choice, then pay 1. \
             Attach this card to a friendly non-attached card of your choice, then pay 4."
                .to_string()
        )
    );
}

#[test]
fn malformed_param_commands_are_refused() {
    assert_eq!(expand("¤(Pay(3)", vec![ParamCommand::Pay]), None);
    assert_eq!(expand("¤(Pay(3)é", vec![ParamCommand::Pay]), None);
    assert_eq!(expand("¤(Pay(3", vec![ParamCommand::Pay]), None);
    assert_eq!(expand("¤(Pay(3", vec![ParamCommand::PayLower]), Some("¤(Pay(3".to_string()));
}

#[test]
fn phrases_become_commands() {
    assert_eq!(
        try_inject_phrase_commands("  I'm strong. I have a card with Flying.\n"),
        Some("I am strong. ¤(i have) a ¤(cwsn(Flying)).".to_string())
    );
    assert_eq!(
        try_inject_phrase_commands("Boost boost experience"),
        Some("¤(Boost) ¤(boost) ¤(xp)".to_string())
    );
    assert_eq!(
        try_inject_phrase_commands("Cards with Speed, cards with Armor."),
        Some("¤(Cswsn(Speed)), ¤(cswsn(Armor)).".to_string())
    );
}

#[test]
fn unfinished_phrases_are_refused() {
    assert_eq!(try_inject_phrase_commands("Cards with Flying"), None);
    assert_eq!(try_inject_phrase_commands("a card with"), None);
    assert_eq!(try_inject_phrase_commands("Card with€x."), None);
}

#[test]
fn word_commands_name_the_word() {
    let ks = vec![
        ParamCommand::WordCards,
        ParamCommand::WordCardsLower,
        ParamCommand::WordCard,
        ParamCommand::WordCardLower,
        ParamCommand::NonWordCards,
        ParamCommand::NonWordCardsLower,
        ParamCommand::NonWordCard,
        ParamCommand::NonWordCardLower,
    ];
    assert_eq!(
        expand("¤(Cswsn(Speed)), ¤(cwsn(Armor)). ¤(Cwosn(Big)) ¤(cswosn(Small)).", ks),
        Some("Speed cards, Armor card. Non-Big card non-Small cards.".to_string())
    );
}
