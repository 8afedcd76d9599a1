#![allow(non_upper_case_globals)]
#![allow(non_camel_case_types)]

pub mod text;
pub mod serialize;
pub mod pdf;
pub mod generate_alpha;
pub mod to_pdf;
pub mod serialize_0_2_0;
pub mod deserialize;
pub mod catalog;

use vstd::prelude::*;

verus! {

/// Capacity hints that the card builders start their collections with.
pub const default_subattrib_alloc: usize = 1;
pub const default_card_name_alloc: usize = 10;
pub const default_card_attribute_alloc: usize = 5;
pub const default_card_property_alloc: usize = 5;
pub const default_property_name_alloc: usize = 20;
pub const default_property_attribute_alloc: usize = 5;
pub const default_property_effect_alloc: usize = 50;
pub const default_action_text_alloc: usize = 100;
pub const default_effects_alloc: usize = 1;
pub const default_name_string_alloc: usize = 100;
pub const default_attr_string_alloc: usize = 100;

/// The character that marks a string value inside rules text.
pub const string_indicator_char: char = '"';

/// Cards laid out on one page of the printed sheet.
pub const cards_per_column: usize = 3;
pub const cards_per_row: usize = 3;
pub const cards_per_page: usize = 9;

/// Width of a card in pixels at the resolution of the alpha images.
pub const card_pixel_width: usize = 2360;

/// Number of property-symbol rows beside which property text is narrowed.
pub const prop_sym_l: usize = 1;

/// Alpha-gradient parameters of the background images.
pub const max_alpha: u8 = 124;
pub const pixels_per_alpha_step: usize = 1;
pub const gradient_buffer_pixels: usize = 6;
pub const alpha_gradient_pixel_height: usize = 130;

/// The attribute names that a card line may give with a value.
pub const attributes: [&'static str; 10] = [
    "Offense",
    "Defense",
    "Strength",
    "Health",
    "Power",
    "Speed",
    "Salvage",
    "Morale",
    "Tactics",
    "Logistics",
];

/// A named attribute of a card and its value, both as written on the card.
#[derive(Clone, Debug, PartialEq)]
pub struct Attribute {
    pub n: String,
    pub v: String,
}

/// The view of an attribute: its name and its value.
pub struct AttributeView {
    pub n: Seq<char>,
    pub v: Seq<char>,
}

impl View for Attribute {
    type V = AttributeView;

    open spec fn view(&self) -> AttributeView {
        AttributeView { n: self.n@, v: self.v@ }
    }
}

/// A card of the game.
#[derive(Clone, Debug, PartialEq)]
pub struct Card {
    pub name: String,
    pub flavor_text: String,
    pub commander: bool,
    pub attributes: Vec<Attribute>,
    pub types: Vec<String>,
    pub abiilities: Vec<String>,
    pub reactions: Vec<String>,
    pub traits: Vec<String>,
}

/// The view of a card: every text as a character sequence.
pub struct CardView {
    pub name: Seq<char>,
    pub flavor_text: Seq<char>,
    pub commander: bool,
    pub attributes: Seq<AttributeView>,
    pub types: Seq<Seq<char>>,
    pub abiilities: Seq<Seq<char>>,
    pub reactions: Seq<Seq<char>>,
    pub traits: Seq<Seq<char>>,
}

/// The views of a sequence of attributes.
pub open spec fn attribute_views(a: Seq<Attribute>) -> Seq<AttributeView> {
    a.map_values(|x: Attribute| x@)
}

/// The views of a sequence of cards.
pub open spec fn card_views(c: Seq<Card>) -> Seq<CardView> {
    c.map_values(|x: Card| x@)
}

impl View for Card {
    type V = CardView;

    open spec fn view(&self) -> CardView {
        CardView {
            name: self.name@,
            flavor_text: self.flavor_text@,
            commander: self.commander,
            attributes: attribute_views(self.attributes@),
            types: text::strs(self.types@),
            abiilities: text::strs(self.abiilities@),
            reactions: text::strs(self.reactions@),
            traits: text::strs(self.traits@),
        }
    }
}

/// A card with the given name and nothing else on it.
pub open spec fn named_card(name: Seq<char>) -> CardView {
    CardView {
        name: name,
        flavor_text: Seq::empty(),
        commander: false,
        attributes: Seq::empty(),
        types: Seq::empty(),
        abiilities: Seq::empty(),
        reactions: Seq::empty(),
        traits: Seq::empty(),
    }
}

impl Card {
    /// A card with no name, text, attributes or properties.
    pub fn new() -> (c: Card)
        ensures
            c@ == named_card(Seq::empty()),
    {
        Card::with_name(String::new())
    }

    /// A card with the given name and nothing else on it.
    pub fn with_name(name: String) -> (c: Card)
        ensures
            c@ == named_card(name@),
    {
        let c = Card {
            name: name,
            flavor_text: String::new(),
            commander: false,
            attributes: Vec::with_capacity(default_card_attribute_alloc),
            types: Vec::with_capacity(default_card_property_alloc),
            abiilities: Vec::with_capacity(default_card_property_alloc),
            reactions: Vec::with_capacity(default_card_property_alloc),
            traits: Vec::with_capacity(default_card_property_alloc),
        };
        assert(c@.attributes =~= Seq::<AttributeView>::empty());
        assert(c@.types =~= Seq::<Seq<char>>::empty());
        assert(c@.abiilities =~= Seq::<Seq<char>>::empty());
        assert(c@.reactions =~= Seq::<Seq<char>>::empty());
        assert(c@.traits =~= Seq::<Seq<char>>::empty());
        c
    }
}

} // verus!
