//! Reading cards from their text form.
//!
//! A card file holds blocks of lines separated by empty lines. The first line
//! of a block is the card's name; the other lines are joined into one data
//! line. A data line starts with comma-separated attributes and types and
//! goes on with properties, each introduced by a kind character followed by
//! `;` (`A;` ability, `R;` reaction, `T;` trait).
use vstd::prelude::*;

use crate::text::{
    trim_end, trim_start,
    byte_offset, byte_offset_of, char_at_byte, char_index_at_byte, chars_and_byte_len,
    chars_less, chars_lt, lemma_chars_lt_irreflexive, lemma_chars_lt_total,
    lemma_chars_lt_transitive, lines, lines_of, strs, char_utf8_len, utf8_len, find_char, find_char_from, from_chars, seqs, split_chars, split_on, sub_chars, to_chars, trim,
    trim_chars,
};
use crate::{attribute_views, attributes, card_views, named_card, Attribute, AttributeView, Card, CardView};

verus! {

// ---------------------------------------------------------------------------
// Property markers
// ---------------------------------------------------------------------------

/// First position `p >= from` of `s` whose next character is `;`.
pub open spec fn marker_from(s: Seq<char>, from: int) -> Option<int>
    decreases s.len() - from,
{
    if from < 0 || from + 1 >= s.len() {
        None
    } else if s[from + 1] == ';' {
        Some(from)
    } else {
        marker_from(s, from + 1)
    }
}

/// What `marker_from` gives, stated pointwise.
pub proof fn lemma_marker_from(s: Seq<char>, from: int)
    requires
        0 <= from,
    ensures
        match marker_from(s, from) {
            Some(p) => from <= p && p + 1 < s.len() && s[p + 1] == ';' && forall|k: int|
                from < k <= p ==> s[k] != ';',
            None => forall|k: int| from < k < s.len() ==> s[k] != ';',
        },
    decreases s.len() - from,
{
    if from + 1 < s.len() && s[from + 1] != ';' {
        lemma_marker_from(s, from + 1);
    }
}

/// Finds the next property marker at or after character `start`: a
/// character followed by `;`. Gives the character and its character position.
fn next_marker(string: &[char], start: usize) -> (r: Option<(char, usize)>)
    ensures
        r == (match marker_from(string@, start as int) {
            Some(p) => Some((string@[p], p as usize)),
            None => None::<(char, usize)>,
        }),
{
    proof {
        lemma_marker_from(string@, start as int);
    }
    let mut p = start;
    while p < string.len()
        invariant
            start <= p,
            marker_from(string@, start as int) == marker_from(string@, p as int),
        decreases string.len() - p,
    {
        if p + 1 < string.len() && string[p + 1] == ';' {
            return Some((string[p], p));
        }
        p += 1;
    }
    None
}

/// Finds the next property marker whose byte offset is at least `start`: a
/// character followed by `;`. Gives the character and its byte offset.
pub fn find_next_property_position(string: &str, start: usize) -> (r: Option<(char, usize)>)
    ensures
        match marker_from(string@, char_at_byte(string@, start as int)) {
            Some(p) => r matches Some((c, b)) && c == string@[p] && b == byte_offset(string@, p),
            None => r is None,
        },
{
    let (v, n) = chars_and_byte_len(string);
    let i = char_index_at_byte(v.as_slice(), start, n);
    match next_marker(v.as_slice(), i) {
        None => None,
        Some((c, p)) => {
            proof {
                lemma_marker_from(v@, i as int);
            }
            Some((c, byte_offset_of(v.as_slice(), p, n)))
        },
    }
}

/// The positions of all property markers of `s` from `from` on, in order.
pub open spec fn markers_from(s: Seq<char>, from: int) -> Seq<int>
    decreases s.len() - from,
{
    if from < 0 {
        Seq::empty()
    } else {
        match marker_from(s, from) {
            None => Seq::empty(),
            Some(p) => {
                proof {
                    lemma_marker_from(s, from);
                }
                seq![p].add(markers_from(s, p + 1))
            },
        }
    }
}

// ---------------------------------------------------------------------------
// Attributes and types
// ---------------------------------------------------------------------------

/// Whether `name` is one of the attribute names that carry a value.
pub open spec fn is_attribute_name(name: Seq<char>) -> bool {
    exists|i: int| 0 <= i < attributes@.len() && attributes@[i]@ == name
}

/// Every name of the attribute list is read as an attribute name, and only
/// those are.
pub proof fn lemma_listed_names_are_attribute_names(name: Seq<char>)
    ensures
        forall|i: int| 0 <= i < attributes@.len() ==> is_attribute_name(#[trigger] attributes@[i]@),
        is_attribute_name(name) <==> attributes@.map_values(|a: &str| a@).contains(name),
{
    let names = attributes@.map_values(|a: &str| a@);
    if is_attribute_name(name) {
        let i = choose|i: int| 0 <= i < attributes@.len() && attributes@[i]@ == name;
        assert(names[i] == name);
    }
    if names.contains(name) {
        let i = choose|i: int| 0 <= i < names.len() && names[i] == name;
        assert(attributes@[i]@ == name);
    }
}

/// Whether two character vectors are equal.
pub fn chars_equal(a: &[char], b: &[char]) -> (r: bool)
    ensures
        r == (a@ == b@),
{
    if a.len() != b.len() {
        return false;
    }
    let mut i: usize = 0;
    while i < a.len()
        invariant
            a.len() == b.len(),
            i <= a.len(),
            forall|k: int| 0 <= k < i ==> a@[k] == b@[k],
        decreases a.len() - i,
    {
        if a[i] != b[i] {
            return false;
        }
        i += 1;
    }
    assert(a@ =~= b@);
    true
}

/// Whether `name` is one of the attribute names that carry a value.
pub fn attribute_name(name: &[char]) -> (r: bool)
    ensures
        r == is_attribute_name(name@),
{
    let mut i: usize = 0;
    while i < attributes.len()
        invariant
            i <= attributes@.len(),
            forall|k: int| 0 <= k < i ==> attributes@[k]@ != name@,
        decreases attributes@.len() - i,
    {
        let known = to_chars(attributes[i]);
        if chars_equal(known.as_slice(), name) {
            return true;
        }
        i += 1;
    }
    false
}

/// The card after reading one comma-separated piece of its first part: a
/// known attribute name followed by a space and a value adds an attribute; an
/// other first word, or a piece without a space, adds a type.
pub open spec fn init_step(card: CardView, piece: Seq<char>) -> CardView {
    if piece.len() == 0 {
        card
    } else {
        match find_char_from(piece, ' ', 0) {
            Some(k) => {
                let name = trim(piece.subrange(0, k));
                if is_attribute_name(name) {
                    CardView {
                        attributes: card.attributes.push(
                            AttributeView { n: name, v: trim(piece.subrange(k, piece.len() as int)) },
                        ),
                        ..card
                    }
                } else {
                    CardView { types: card.types.push(name), ..card }
                }
            },
            None => CardView { types: card.types.push(piece), ..card },
        }
    }
}

/// The card after reading the attributes and types in `s`, the part of a data
/// line before its first property.
pub open spec fn initialize(card: CardView, s: Seq<char>) -> CardView {
    split_on(trim(s), ',').fold_left(card, |c: CardView, p: Seq<char>| init_step(c, trim(p)))
}

/// Reads one trimmed piece of the first part of a data line into `card`.
fn read_piece(card: &mut Card, piece: Vec<char>)
    ensures
        final(card)@ == init_step(old(card)@, piece@),
{
    if piece.len() == 0 {
        return ;
    }
    proof {
        crate::text::lemma_find_char_from(piece@, ' ', 0);
    }
    match find_char(piece.as_slice(), ' ', 0) {
        Some(k) => {
            let head = sub_chars(piece.as_slice(), 0, k);
            let name = trim_chars(head.as_slice());
            if attribute_name(name.as_slice()) {
                let rest = sub_chars(piece.as_slice(), k, piece.len());
                let value = trim_chars(rest.as_slice());
                let a = Attribute { n: from_chars(name.as_slice()), v: from_chars(value.as_slice()) };
                card.attributes.push(a);
                assert(card@.attributes =~= init_step(old(card)@, piece@).attributes);
            } else {
                card.types.push(from_chars(name.as_slice()));
                assert(card@.types =~= init_step(old(card)@, piece@).types);
            }
        },
        None => {
            card.types.push(from_chars(piece.as_slice()));
            assert(card@.types =~= init_step(old(card)@, piece@).types);
        },
    }
}

/// Reads the attributes and types of the first part of a data line into
/// `card`.
pub fn initialize_card(card: &mut Card, s: &[char])
    ensures
        final(card)@ == initialize(old(card)@, s@),
{
    let t = trim_chars(s);
    let pieces = split_chars(t.as_slice(), ',');
    let ghost ps = split_on(trim(s@), ',');
    let ghost f = |c: CardView, p: Seq<char>| init_step(c, trim(p));
    let mut i: usize = 0;
    while i < pieces.len()
        invariant
            i <= pieces.len(),
            seqs(pieces@) == ps,
            ps == split_on(trim(s@), ','),
            f == (|c: CardView, p: Seq<char>| init_step(c, trim(p))),
            card@ == ps.take(i as int).fold_left(old(card)@, f),
        decreases pieces.len() - i,
    {
        let piece = trim_chars(pieces[i].as_slice());
        assert(ps[i as int] == pieces@[i as int]@);
        read_piece(card, piece);
        assert(ps.take(i + 1).drop_last() =~= ps.take(i as int));
        i += 1;
    }
    assert(ps.take(pieces.len() as int) =~= ps);
}

// ---------------------------------------------------------------------------
// Properties
// ---------------------------------------------------------------------------

/// Why a data line could not be read.
#[derive(Clone, Copy, Debug, PartialEq)]
pub enum PropertyError {
    /// A property marker whose kind character is none of `A`, `R`, `T`.
    InvalidPropertyChar(char),
}

/// Where reading a data line into a card ends.
pub enum LineOutcome {
    /// The line was read; the card as it then is.
    Done(CardView),
    /// A marker of an unknown kind; the card as far as it was read.
    Failed(char, CardView),
    /// The reader would slice a segment inside a character or past its end.
    Panics,
}

/// Whether `c` is the kind character of a property.
pub open spec fn is_property_kind(c: char) -> bool {
    c == 'A' || c == 'R' || c == 'T'
}

/// The card with a property text added to the list of its kind.
pub open spec fn add_property(card: CardView, kind: char, text: Seq<char>) -> CardView {
    if kind == 'A' {
        CardView { abiilities: card.abiilities.push(text), ..card }
    } else if kind == 'R' {
        CardView { reactions: card.reactions.push(text), ..card }
    } else if kind == 'T' {
        CardView { traits: card.traits.push(text), ..card }
    } else {
        card
    }
}

/// A segment without its first two bytes (the kind character and `;`), or
/// `None` where the second byte boundary falls inside a character or past
/// the end of the segment.
pub open spec fn after_marker(seg: Seq<char>) -> Option<Seq<char>> {
    if seg.len() == 0 {
        None
    } else if utf8_len(seg[0]) == 1 {
        if seg.len() >= 2 {
            Some(seg.subrange(2, seg.len() as int))
        } else {
            None
        }
    } else if utf8_len(seg[0]) == 2 {
        Some(seg.subrange(1, seg.len() as int))
    } else {
        None
    }
}

/// Reads the properties of `s` from the marker at `p` on. A segment that is
/// followed by another marker goes, trimmed and without its marker, to the
/// list of the kind of the marker that follows it; the last segment goes,
/// whole, to the list of its own kind.
pub open spec fn read_from(card: CardView, s: Seq<char>, p: int) -> LineOutcome
    decreases s.len() - p,
{
    if p < 0 || p >= s.len() {
        LineOutcome::Done(card)
    } else {
        match marker_from(s, p + 1) {
            None => {
                let kind = s[p];
                if is_property_kind(kind) {
                    LineOutcome::Done(add_property(card, kind, s.subrange(p, s.len() as int)))
                } else {
                    LineOutcome::Failed(kind, card)
                }
            },
            Some(q) => {
                proof {
                    lemma_marker_from(s, p + 1);
                }
                let kind = s[q];
                if !is_property_kind(kind) {
                    LineOutcome::Failed(kind, card)
                } else {
                    match after_marker(s.subrange(p, q)) {
                        None => LineOutcome::Panics,
                        Some(t) => read_from(add_property(card, kind, trim(t)), s, q),
                    }
                }
            },
        }
    }
}

/// What reading the data line `s` into `card` gives.
pub open spec fn process_line(card: CardView, s: Seq<char>) -> LineOutcome {
    match marker_from(s, 0) {
        None => LineOutcome::Done(initialize(card, s)),
        Some(p) => read_from(initialize(card, s.subrange(0, p)), s, p),
    }
}

/// Adds a property text to the list of its kind.
fn push_property(card: &mut Card, kind: char, text: &[char])
    requires
        is_property_kind(kind),
    ensures
        final(card)@ == add_property(old(card)@, kind, text@),
{
    let t = from_chars(text);
    if kind == 'A' {
        card.abiilities.push(t);
        assert(card@.abiilities =~= add_property(old(card)@, kind, text@).abiilities);
    } else if kind == 'R' {
        card.reactions.push(t);
        assert(card@.reactions =~= add_property(old(card)@, kind, text@).reactions);
    } else {
        card.traits.push(t);
        assert(card@.traits =~= add_property(old(card)@, kind, text@).traits);
    }
}

/// The text of a segment after its marker; `None` where slicing off the
/// first two bytes would fail.
fn segment_body(seg: &[char]) -> (r: Option<Vec<char>>)
    ensures
        r matches Some(t) ==> after_marker(seg@) == Some(t@),
        r is None ==> after_marker(seg@) is None,
{
    if seg.len() == 0 {
        return None;
    }
    let n = char_utf8_len(seg[0]);
    if n == 1 {
        if seg.len() >= 2 {
            Some(sub_chars(seg, 2, seg.len()))
        } else {
            None
        }
    } else if n == 2 {
        Some(sub_chars(seg, 1, seg.len()))
    } else {
        None
    }
}

/// Reads a data line into `card`, or gives `None` where reading it would
/// slice a segment inside a character or past its end.
pub fn try_process_card(card: &mut Card, s: &[char]) -> (r: Option<Result<(), PropertyError>>)
    ensures
        match r {
            Some(Ok(())) => process_line(old(card)@, s@) == LineOutcome::Done(final(card)@),
            Some(Err(PropertyError::InvalidPropertyChar(c))) => process_line(old(card)@, s@)
                == LineOutcome::Failed(c, final(card)@),
            None => process_line(old(card)@, s@) is Panics,
        },
{
    proof {
        lemma_marker_from(s@, 0);
    }
    let prev = next_marker(s, 0);
    match prev {
        None => {
            initialize_card(card, s);
            Some(Ok(()))
        },
        Some((first_prop, first_offset)) => {
            let head = sub_chars(s, 0, first_offset);
            initialize_card(card, head.as_slice());
            let mut prop = first_prop;
            let mut offset = first_offset;
            loop
                invariant
                    offset < s.len(),
                    prop == s@[offset as int],
                    process_line(old(card)@, s@) == read_from(card@, s@, offset as int),
                decreases s.len() - offset,
            {
                proof {
                    lemma_marker_from(s@, offset + 1);
                }
                match next_marker(s, offset + 1) {
                    None => {
                        if prop == 'A' || prop == 'R' || prop == 'T' {
                            let tail = sub_chars(s, offset, s.len());
                            push_property(card, prop, tail.as_slice());
                            return Some(Ok(()));
                        } else {
                            return Some(Err(PropertyError::InvalidPropertyChar(prop)));
                        }
                    },
                    Some((next_prop, next_offset)) => {
                        if !(next_prop == 'A' || next_prop == 'R' || next_prop == 'T') {
                            return Some(Err(PropertyError::InvalidPropertyChar(next_prop)));
                        }
                        let seg = sub_chars(s, offset, next_offset);
                        match segment_body(seg.as_slice()) {
                            None => {
                                return None;
                            },
                            Some(body) => {
                                let text = trim_chars(body.as_slice());
                                push_property(card, next_prop, text.as_slice());
                            },
                        }
                        prop = next_prop;
                        offset = next_offset;
                    },
                }
            }
        },
    }
}

/// Reads a data line into `card`: first its attributes and types, then its
/// properties.
pub fn process_card(card: &mut Card, s: &[char]) -> (r: Result<(), PropertyError>)
    requires
        process_line(old(card)@, s@) !is Panics,
    ensures
        match r {
            Ok(()) => process_line(old(card)@, s@) == LineOutcome::Done(final(card)@),
            Err(PropertyError::InvalidPropertyChar(c)) => process_line(old(card)@, s@)
                == LineOutcome::Failed(c, final(card)@),
        },
{
    match try_process_card(card, s) {
        Some(r) => r,
        None => Ok(()),
    }
}

// ---------------------------------------------------------------------------
// Card strings and whole files
// ---------------------------------------------------------------------------

/// The cards of the lines of one card string: each line at an even position
/// names a card, and the line after it, if any, is that card's data line.
/// `None` where reading a data line fails.
pub open spec fn lines_cards(ls: Seq<Seq<char>>) -> Option<Seq<CardView>>
    decreases ls.len(),
{
    if ls.len() == 0 {
        Some(Seq::empty())
    } else if ls.len() == 1 {
        Some(seq![named_card(ls[0])])
    } else {
        match process_line(named_card(ls[0]), ls[1]) {
            LineOutcome::Done(c) => match lines_cards(ls.subrange(2, ls.len() as int)) {
                Some(rest) => Some(seq![c] + rest),
                None => None,
            },
            _ => None,
        }
    }
}

/// Whether every card string can be read.
pub open spec fn card_strings_readable(cs: Seq<Seq<char>>) -> bool {
    forall|i: int| 0 <= i < cs.len() ==> (#[trigger] lines_cards(lines(cs[i]))) is Some
}

/// The cards of a sequence of card strings, in order.
pub open spec fn strings_cards(cs: Seq<Seq<char>>) -> Seq<CardView> {
    cs.fold_left(
        Seq::<CardView>::empty(),
        |acc: Seq<CardView>, c: Seq<char>| acc + lines_cards(lines(c)).unwrap(),
    )
}

/// Reads the cards of one card string, given by its lines, after `cards`;
/// false, with `cards` then unspecified, where a data line cannot be read.
fn read_card_lines(ls: &Vec<Vec<char>>, cards: &mut Vec<Card>) -> (ok: bool)
    ensures
        ok == lines_cards(seqs(ls@)) is Some,
        ok ==> card_views(final(cards)@) == card_views(old(cards)@) + lines_cards(seqs(ls@)).unwrap(),
{
    let ghost all = seqs(ls@);
    assert(all.subrange(0, all.len() as int) =~= all);
    let mut i: usize = 0;
    while i < ls.len()
        invariant
            all == seqs(ls@),
            i <= ls.len(),
            lines_cards(all) is Some <==> lines_cards(all.subrange(i as int, all.len() as int)) is Some,
            lines_cards(all) is Some ==> card_views(old(cards)@) + lines_cards(all).unwrap()
                == card_views(cards@) + lines_cards(all.subrange(i as int, all.len() as int)).unwrap(),
        decreases ls.len() - i,
    {
        let ghost rest = all.subrange(i as int, all.len() as int);
        let ghost before = card_views(cards@);
        let mut card = Card::with_name(from_chars(ls[i].as_slice()));
        assert(rest[0] == ls@[i as int]@);
        if i + 1 < ls.len() {
            assert(rest[1] == ls@[i + 1]@);
            let r = try_process_card(&mut card, ls[i + 1].as_slice());
            match r {
                Some(Ok(())) => {},
                _ => {
                    return false;
                },
            }
            assert(rest.subrange(2, rest.len() as int) =~= all.subrange(i + 2, all.len() as int));
            cards.push(card);
            assert(card_views(cards@) =~= before.push(card@));
            i += 2;
        } else {
            cards.push(card);
            assert(card_views(cards@) =~= before.push(card@));
            assert(all.subrange(i + 1, all.len() as int) =~= Seq::<Seq<char>>::empty());
            i += 1;
        }
    }
    assert(all.subrange(ls.len() as int, all.len() as int) =~= Seq::<Seq<char>>::empty());
    true
}

/// Reads the cards of every card string.
pub fn process_card_strings(card_strings: Vec<String>) -> (cards: Vec<Card>)
    requires
        card_strings_readable(strs(card_strings@)),
    ensures
        card_views(cards@) == strings_cards(strs(card_strings@)),
{
    let ghost cs = strs(card_strings@);
    let mut cards: Vec<Card> = Vec::with_capacity(card_strings.len());
    let mut i: usize = 0;
    while i < card_strings.len()
        invariant
            cs == strs(card_strings@),
            card_strings_readable(cs),
            i <= card_strings.len(),
            card_views(cards@) == strings_cards(cs.take(i as int)),
        decreases card_strings.len() - i,
    {
        let chars = to_chars(card_strings[i].as_str());
        let ls = lines_of(chars.as_slice());
        assert(cs[i as int] == chars@);
        assert(lines_cards(lines(cs[i as int])) is Some);
        let ok = read_card_lines(&ls, &mut cards);
        assert(cs.take(i + 1).drop_last() =~= cs.take(i as int));
        i += 1;
    }
    assert(cs.take(card_strings.len() as int) =~= cs);
    cards
}

/// One step of grouping the lines of a file into card strings: an empty line
/// ends the current card string; the first line of a card string is followed
/// by a line feed, every later line by a space.
pub open spec fn group_step(st: (Seq<Seq<char>>, Seq<char>), line: Seq<char>) -> (
    Seq<Seq<char>>,
    Seq<char>,
) {
    if line.len() == 0 {
        if st.1.len() > 0 {
            (st.0.push(st.1), Seq::empty())
        } else {
            st
        }
    } else if st.1.len() == 0 {
        (st.0, line.push('\n'))
    } else {
        (st.0, st.1 + line.push(' '))
    }
}

/// The card strings of a file: the grouped lines, then whatever card string
/// was being built when the lines ran out (empty after a final empty line).
pub open spec fn card_strings(s: Seq<char>) -> Seq<Seq<char>> {
    let st = lines(s).fold_left((Seq::<Seq<char>>::empty(), Seq::<char>::empty()), |st: (Seq<Seq<char>>, Seq<char>), l: Seq<char>| group_step(st, l));
    st.0.push(st.1)
}

/// Groups the lines of a file into card strings, one per card.
pub fn split_string_by_cards(string: &str) -> (r: Vec<String>)
    ensures
        strs(r@) == card_strings(string@),
{
    let chars = to_chars(string);
    let ls = lines_of(chars.as_slice());
    let ghost all = lines(string@);
    let ghost f = |st: (Seq<Seq<char>>, Seq<char>), l: Seq<char>| group_step(st, l);
    let mut card_strings: Vec<String> = Vec::with_capacity(ls.len());
    let mut card_string: Vec<char> = Vec::with_capacity(1000);
    let mut i: usize = 0;
    while i < ls.len()
        invariant
            i <= ls.len(),
            all == seqs(ls@),
            f == (|st: (Seq<Seq<char>>, Seq<char>), l: Seq<char>| group_step(st, l)),
            (strs(card_strings@), card_string@) == all.take(i as int).fold_left(
                (Seq::<Seq<char>>::empty(), Seq::<char>::empty()),
                f,
            ),
        decreases ls.len() - i,
    {
        let ghost before = strs(card_strings@);
        let ghost cur = card_string@;
        let line = &ls[i];
        assert(all[i as int] == line@);
        assert(all.take(i + 1).drop_last() =~= all.take(i as int));
        if line.len() == 0 {
            if card_string.len() != 0 {
                card_strings.push(from_chars(card_string.as_slice()));
                assert(strs(card_strings@) =~= before.push(card_string@));
                card_string = Vec::new();
            }
        } else if card_string.len() == 0 {
            crate::text::append_chars(&mut card_string, line.as_slice());
            card_string.push('\n');
        } else {
            crate::text::append_chars(&mut card_string, line.as_slice());
            card_string.push(' ');
            assert(card_string@ =~= cur + all[i as int].push(' '));
        }
        i += 1;
    }
    assert(all.take(ls.len() as int) =~= all);
    let ghost before = strs(card_strings@);
    card_strings.push(from_chars(card_string.as_slice()));
    assert(strs(card_strings@) =~= before.push(card_string@));
    card_strings
}

/// Reads every card of a file's text, or gives `None` where a data line
/// cannot be read.
pub fn try_parse_txt_string(string: &str) -> (r: Option<Vec<Card>>)
    ensures
        r is Some <==> card_strings_readable(card_strings(string@)),
        r matches Some(cards) ==> card_views(cards@) == strings_cards(card_strings(string@)),
{
    let strings = split_string_by_cards(string);
    let ghost cs = strs(strings@);
    let mut cards: Vec<Card> = Vec::with_capacity(strings.len());
    let mut i: usize = 0;
    while i < strings.len()
        invariant
            cs == strs(strings@),
            cs == card_strings(string@),
            i <= strings.len(),
            forall|j: int| 0 <= j < i ==> (#[trigger] lines_cards(lines(cs[j]))) is Some,
            card_views(cards@) == strings_cards(cs.take(i as int)),
        decreases strings.len() - i,
    {
        let chars = to_chars(strings[i].as_str());
        let ls = lines_of(chars.as_slice());
        assert(cs[i as int] == chars@);
        let ok = read_card_lines(&ls, &mut cards);
        if !ok {
            return None;
        }
        assert(cs.take(i + 1).drop_last() =~= cs.take(i as int));
        i += 1;
    }
    assert(cs.take(strings.len() as int) =~= cs);
    Some(cards)
}

/// Reads every card of a file's text.
pub fn parse_txt_string(string: String) -> (cards: Vec<Card>)
    requires
        card_strings_readable(card_strings(string@)),
    ensures
        card_views(cards@) == strings_cards(card_strings(string@)),
{
    let card_strings = split_string_by_cards(string.as_str());
    process_card_strings(card_strings)
}

// ---------------------------------------------------------------------------
// Ordering attributes by name
// ---------------------------------------------------------------------------

/// The attributes of `s` with name `k`, in their order in `s`.
pub open spec fn named(s: Seq<AttributeView>, k: Seq<char>) -> Seq<AttributeView> {
    s.filter(|a: AttributeView| a.n == k)
}

/// Whether the names of `s` are in lexicographic order.
pub open spec fn names_sorted(s: Seq<AttributeView>) -> bool {
    forall|i: int, j: int| 0 <= i < j < s.len() ==> !chars_lt(#[trigger] s[j].n, #[trigger] s[i].n)
}

/// Whether `out` is `inp` sorted stably by name: ordered by name, and for
/// every name the attributes with that name in the same order as in `inp`.
pub open spec fn stably_sorted_by_name(out: Seq<AttributeView>, inp: Seq<AttributeView>) -> bool {
    &&& names_sorted(out)
    &&& forall|k: Seq<char>| #[trigger] named(out, k) == named(inp, k)
}

/// Inserting after every attribute whose name is not greater keeps the names
/// sorted and adds the new attribute last among those of its name.
proof fn lemma_insert_sorted(out: Seq<AttributeView>, x: AttributeView, q: int)
    requires
        names_sorted(out),
        0 <= q <= out.len(),
        forall|j: int| 0 <= j < q ==> !chars_lt(x.n, #[trigger] out[j].n),
        q < out.len() ==> chars_lt(x.n, out[q].n),
    ensures
        names_sorted(out.insert(q, x)),
        forall|k: Seq<char>| #[trigger] named(out.insert(q, x), k) == if k == x.n {
            named(out, k).push(x)
        } else {
            named(out, k)
        },
{
    let res = out.insert(q, x);
    assert forall|j: int| q <= j < out.len() implies chars_lt(x.n, #[trigger] out[j].n) by {
        if j > q {
            lemma_chars_lt_total(out[q].n, out[j].n);
            if out[q].n != out[j].n {
                lemma_chars_lt_transitive(x.n, out[q].n, out[j].n);
            }
        }
    }
    assert forall|i: int, j: int| 0 <= i < j < res.len() implies !chars_lt(
        #[trigger] res[j].n,
        #[trigger] res[i].n,
    ) by {
        if i < q && j == q {
        } else if i == q && j > q {
            lemma_chars_lt_total(x.n, out[j - 1].n);
        } else if i < q && j > q {
            assert(res[j] == out[j - 1]);
        } else if i > q {
            assert(res[i] == out[i - 1] && res[j] == out[j - 1]);
        }
    }
    assert forall|k: Seq<char>| #[trigger] named(res, k) == if k == x.n {
        named(out, k).push(x)
    } else {
        named(out, k)
    } by {
        let p = |a: AttributeView| a.n == k;
        let pre = out.subrange(0, q);
        let post = out.subrange(q, out.len() as int);
        assert(out =~= pre + post);
        assert(res =~= pre.push(x) + post);
        Seq::filter_distributes_over_add(pre.push(x), post, p);
        Seq::filter_distributes_over_add(pre, post, p);
        pre.lemma_filter_push(x, p);
        if k == x.n {
            assert forall|j: int| 0 <= j < post.len() implies !p(post[j]) by {
                lemma_chars_lt_irreflexive(x.n);
                assert(chars_lt(x.n, out[q + j].n));
            }
            post.lemma_all_neg_filter_empty(p);
        }
    }
}

/// An attribute of `s` with name `k` puts `k` among the names of `s`.
proof fn lemma_named_nonempty(s: Seq<AttributeView>, i: int)
    requires
        0 <= i < s.len(),
    ensures
        named(s, s[i].n).len() > 0,
{
    let p = |a: AttributeView| a.n == s[i].n;
    assert(s =~= s.subrange(0, i).push(s[i]) + s.subrange(i + 1, s.len() as int));
    Seq::filter_distributes_over_add(s.subrange(0, i).push(s[i]), s.subrange(i + 1, s.len() as int), p);
    s.subrange(0, i).lemma_filter_push(s[i], p);
}

/// Names with attributes in `s` are the names of attributes of `s`.
proof fn lemma_named_member(s: Seq<AttributeView>, k: Seq<char>)
    requires
        named(s, k).len() > 0,
    ensures
        exists|i: int| 0 <= i < s.len() && s[i].n == k,
{
    let p = |a: AttributeView| a.n == k;
    broadcast use vstd::seq_lib::group_filter_ensures;
    let x = named(s, k)[0];
    assert(named(s, k).contains(x));
    s.lemma_filter_contains_rev(p, x);
    assert(x.n == k);
    let i = choose|i: int| 0 <= i < s.len() && s[i] == x;
}

/// Two sequences sorted stably by name from the same attributes are equal:
/// the order by name, with the order of each name's attributes, decides
/// every position.
pub proof fn lemma_stable_sort_unique(a: Seq<AttributeView>, b: Seq<AttributeView>)
    requires
        names_sorted(a),
        names_sorted(b),
        forall|k: Seq<char>| #[trigger] named(a, k) == named(b, k),
    ensures
        a == b,
    decreases a.len() + b.len(),
{
    if a.len() == 0 {
        if b.len() > 0 {
            lemma_named_nonempty(b, 0);
            assert(named(a, b[0].n).len() == 0);
        }
        assert(a =~= b);
    } else if b.len() == 0 {
        lemma_named_nonempty(a, 0);
        assert(named(b, a[0].n).len() == 0);
    } else {
        let x = a.last();
        let y = b.last();
        lemma_named_nonempty(a, a.len() - 1);
        lemma_named_nonempty(b, b.len() - 1);
        assert(named(b, x.n).len() > 0);
        lemma_named_member(b, x.n);
        let i = choose|i: int| 0 <= i < b.len() && b[i].n == x.n;
        lemma_named_member(a, y.n);
        let j = choose|j: int| 0 <= j < a.len() && a[j].n == y.n;
        if x.n != y.n {
            lemma_chars_lt_total(x.n, y.n);
            if i < b.len() - 1 {
                assert(!chars_lt(b[b.len() - 1].n, b[i].n));
            }
            if j < a.len() - 1 {
                assert(!chars_lt(a[a.len() - 1].n, a[j].n));
            }
        }
        assert(x.n == y.n);
        let k0 = x.n;
        let p0 = |v: AttributeView| v.n == k0;
        assert(a =~= a.drop_last().push(x));
        assert(b =~= b.drop_last().push(y));
        a.drop_last().lemma_filter_push(x, p0);
        b.drop_last().lemma_filter_push(y, p0);
        assert(named(a, k0).last() == x);
        assert(named(b, k0).last() == y);
        assert(x == y);
        assert forall|k: Seq<char>| #[trigger] named(a.drop_last(), k) == named(b.drop_last(), k) by {
            let p = |v: AttributeView| v.n == k;
            a.drop_last().lemma_filter_push(x, p);
            b.drop_last().lemma_filter_push(y, p);
            assert(named(a, k) == named(b, k));
            assert(named(a, k) == a.drop_last().push(x).filter(p));
            assert(named(b, k) == b.drop_last().push(y).filter(p));
            if k == k0 {
                assert(named(a.drop_last(), k) =~= named(a, k).drop_last());
                assert(named(b.drop_last(), k) =~= named(b, k).drop_last());
            }
        }
        lemma_stable_sort_unique(a.drop_last(), b.drop_last());
    }
}

/// Sorting attributes that are already in order by name leaves them as they
/// are, so sorting twice is sorting once.
pub proof fn lemma_sorted_attributes_unchanged(out: Seq<AttributeView>, inp: Seq<AttributeView>)
    requires
        names_sorted(inp),
        stably_sorted_by_name(out, inp),
    ensures
        out == inp,
{
    lemma_stable_sort_unique(out, inp);
}

/// Sorts attributes by name, keeping attributes of equal name in their order.
pub fn sort_attributes_by_name(attrs: Vec<Attribute>) -> (out: Vec<Attribute>)
    ensures
        stably_sorted_by_name(attribute_views(out@), attribute_views(attrs@)),
{
    let ghost inp = attribute_views(attrs@);
    let mut rest = attrs;
    let mut out: Vec<Attribute> = Vec::new();
    assert(inp.skip(0) =~= inp);
    assert(attribute_views(out@) =~= Seq::<AttributeView>::empty());
    assert(inp.take(0) =~= Seq::<AttributeView>::empty());
    while rest.len() > 0
        invariant
            rest.len() <= inp.len(),
            attribute_views(rest@) == inp.skip(inp.len() - rest.len()),
            names_sorted(attribute_views(out@)),
            forall|k: Seq<char>| #[trigger] named(attribute_views(out@), k) == named(inp.take(inp.len() - rest.len()), k),
        decreases rest.len(),
    {
        let ghost i = inp.len() - rest.len();
        let ghost old_rest = rest@;
        let x = rest.remove(0);
        assert(attribute_views(old_rest)[0] == inp.skip(i)[0]);
        assert(rest@ =~= old_rest.subrange(1, old_rest.len() as int));
        assert(x@ == inp[i]);
        assert forall|j: int| 0 <= j < rest.len() implies #[trigger] attribute_views(rest@)[j]
            == inp.skip(i + 1)[j] by {
            assert(rest@[j] == old_rest[j + 1]);
            assert(attribute_views(old_rest)[j + 1] == inp.skip(i)[j + 1]);
        }
        assert(attribute_views(rest@) =~= inp.skip(i + 1));
        let xn = to_chars(x.n.as_str());
        let mut q: usize = 0;
        let mut found = false;
        while q < out.len() && !found
            invariant
                q <= out.len(),
                xn@ == x@.n,
                forall|j: int| 0 <= j < q ==> !chars_lt(x@.n, #[trigger] attribute_views(out@)[j].n),
                found ==> q < out.len() && chars_lt(x@.n, attribute_views(out@)[q as int].n),
            decreases out.len() - q, if found { 0int } else { 1int },
        {
            let yn = to_chars(out[q].n.as_str());
            if chars_less(xn.as_slice(), yn.as_slice()) {
                found = true;
            } else {
                q += 1;
            }
        }
        let ghost before = attribute_views(out@);
        proof {
            lemma_insert_sorted(before, x@, q as int);
        }
        out.insert(q, x);
        assert(attribute_views(out@) =~= before.insert(q as int, inp[i]));
        assert forall|k: Seq<char>| #[trigger] named(attribute_views(out@), k) == named(inp.take(i + 1), k) by {
            assert(inp.take(i + 1) =~= inp.take(i).push(inp[i]));
            inp.take(i).lemma_filter_push(inp[i], |a: AttributeView| a.n == k);
        }
    }
    assert(inp.take(inp.len() as int) =~= inp);
    out
}

// ---------------------------------------------------------------------------
// Files of cards
// ---------------------------------------------------------------------------

/// The cards of a sequence of file texts, file after file.
pub open spec fn files_cards(texts: Seq<Seq<char>>) -> Seq<CardView> {
    texts.fold_left(
        Seq::<CardView>::empty(),
        |acc: Seq<CardView>, t: Seq<char>| acc + strings_cards(card_strings(t)),
    )
}

/// Whether every card of every file text can be read.
pub open spec fn files_readable(texts: Seq<Seq<char>>) -> bool {
    forall|i: int| 0 <= i < texts.len() ==> card_strings_readable(#[trigger] card_strings(texts[i]))
}

/// Whether `out` is the card `c` as a finished collection holds it: its
/// attributes sorted stably by name and its commander flag set to
/// `commanders`, everything else as read.
pub open spec fn finished_card(out: CardView, c: CardView, commanders: bool) -> bool {
    &&& out.name == c.name
    &&& out.flavor_text == c.flavor_text
    &&& out.commander == commanders
    &&& stably_sorted_by_name(out.attributes, c.attributes)
    &&& out.types == c.types
    &&& out.abiilities == c.abiilities
    &&& out.reactions == c.reactions
    &&& out.traits == c.traits
}

/// Sorts the card's attributes by name and sets its commander flag.
fn finish_card(card: Card, commanders: bool) -> (out: Card)
    ensures
        finished_card(out@, card@, commanders),
{
    let Card {
        name,
        flavor_text,
        commander: _,
        attributes: attrs,
        types,
        abiilities,
        reactions,
        traits,
    } = card;
    Card {
        name,
        flavor_text,
        commander: commanders,
        attributes: sort_attributes_by_name(attrs),
        types,
        abiilities,
        reactions,
        traits,
    }
}

/// Reads the cards of the given file texts, sorts each card's attributes by
/// name and marks every card as a commander or not.
pub fn serialize_all_cards(texts: &Vec<String>, commanders: bool) -> (cards: Vec<Card>)
    requires
        files_readable(strs(texts@)),
    ensures
        cards.len() == files_cards(strs(texts@)).len(),
        forall|i: int|
            0 <= i < cards.len() ==> finished_card(
                #[trigger] cards@[i]@,
                files_cards(strs(texts@))[i],
                commanders,
            ),
{
    let ghost ts = strs(texts@);
    let mut read: Vec<Card> = Vec::with_capacity(10000);
    let mut i: usize = 0;
    while i < texts.len()
        invariant
            ts == strs(texts@),
            files_readable(ts),
            i <= texts.len(),
            card_views(read@) == files_cards(ts.take(i as int)),
        decreases texts.len() - i,
    {
        let text = texts[i].clone();
        assert(ts[i as int] == text@);
        assert(card_strings_readable(card_strings(ts[i as int])));
        let mut more = parse_txt_string(text);
        let ghost before = card_views(read@);
        let ghost added = card_views(more@);
        read.append(&mut more);
        assert(card_views(read@) =~= before + added);
        assert(ts.take(i + 1).drop_last() =~= ts.take(i as int));
        i += 1;
    }
    assert(ts.take(texts.len() as int) =~= ts);
    let ghost all = card_views(read@);
    let mut cards: Vec<Card> = Vec::with_capacity(read.len());
    let mut rest = read;
    assert(all.skip(0) =~= all);
    while rest.len() > 0
        invariant
            rest.len() <= all.len(),
            card_views(rest@) == all.skip(all.len() - rest.len()),
            cards.len() == all.len() - rest.len(),
            forall|j: int|
                0 <= j < cards.len() ==> finished_card(#[trigger] cards@[j]@, all[j], commanders),
        decreases rest.len(),
    {
        let ghost k = all.len() - rest.len();
        let ghost old_rest = rest@;
        let c = rest.remove(0);
        assert(card_views(old_rest)[0] == all.skip(k)[0]);
        assert(rest@ =~= old_rest.subrange(1, old_rest.len() as int));
        assert forall|j: int| 0 <= j < rest.len() implies #[trigger] card_views(rest@)[j]
            == all.skip(k + 1)[j] by {
            assert(rest@[j] == old_rest[j + 1]);
            assert(card_views(old_rest)[j + 1] == all.skip(k)[j + 1]);
        }
        assert(card_views(rest@) =~= all.skip(k + 1));
        let f = finish_card(c, commanders);
        cards.push(f);
    }
    cards
}

/// A data line that is one property, `A;`, `R;` or `T;` and a text without
/// `;`, puts the whole line into the list of abilities, reactions or traits
/// respectively, and changes nothing else.
pub proof fn lemma_single_property_goes_to_its_list(c: CardView, x: Seq<char>)
    requires
        !x.contains(';'),
    ensures
        process_line(c, seq!['A', ';'] + x) == LineOutcome::Done(
            CardView { abiilities: c.abiilities.push(seq!['A', ';'] + x), ..c },
        ),
        process_line(c, seq!['R', ';'] + x) == LineOutcome::Done(
            CardView { reactions: c.reactions.push(seq!['R', ';'] + x), ..c },
        ),
        process_line(c, seq!['T', ';'] + x) == LineOutcome::Done(
            CardView { traits: c.traits.push(seq!['T', ';'] + x), ..c },
        ),
{
    lemma_single_property(c, x, 'A');
    lemma_single_property(c, x, 'R');
    lemma_single_property(c, x, 'T');
}

/// A data line that is one property of kind `k` and a text without `;`.
proof fn lemma_single_property(c: CardView, x: Seq<char>, k: char)
    requires
        !x.contains(';'),
        is_property_kind(k),
    ensures
        process_line(c, seq![k, ';'] + x) == LineOutcome::Done(
            add_property(c, k, seq![k, ';'] + x),
        ),
{
    let s = seq![k, ';'] + x;
    assert(s[1] == ';');
    assert(marker_from(s, 0) == Some(0int));
    lemma_marker_from(s, 1);
    if let Some(q) = marker_from(s, 1) {
        assert(s[q + 1] == x[q - 1]);
        assert(x.contains(';'));
    }
    let e = s.subrange(0, 0);
    assert(e =~= Seq::<char>::empty());
    assert(trim_start(e) == e);
    assert(trim_end(e) == e);
    assert(trim(e) == e);
    assert(split_on(e, ',') == seq![Seq::<char>::empty()]);
    let f = |cc: CardView, p: Seq<char>| init_step(cc, trim(p));
    let ps = seq![Seq::<char>::empty()];
    assert(ps.drop_last() =~= Seq::<Seq<char>>::empty());
    assert(ps.last() == e);
    assert(Seq::<Seq<char>>::empty().fold_left(c, f) == c);
    assert(ps.fold_left(c, f) == f(ps.drop_last().fold_left(c, f), ps.last()));
    assert(init_step(c, e) == c);
    assert(ps.fold_left(c, f) == c);
    assert(initialize(c, e) == c);
    assert(s.subrange(0, s.len() as int) =~= s);
}

} // verus!
